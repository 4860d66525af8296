//! The builders, the traits through which values compile, and the types.
pub use crate::clause::{order_by, Clause, OrderBy, Where};
pub use crate::definition::{column, Column, Definition};
pub use crate::expression::{Expr, Expression, Order, Orderable, Pattern};
pub use crate::operation::{Condition, Likable, Like, Operation};
pub use crate::statement::create_table::{create_table, CreateTable};
pub use crate::statement::delete_from::{delete_from, Delete, DeleteFrom};
pub use crate::statement::insert_into::{insert_into, InsertInto};
pub use crate::statement::select_from::{select, select_from, Select, SelectFrom};
pub use crate::statement::Statement;
pub use crate::{Error, Field, Type};
