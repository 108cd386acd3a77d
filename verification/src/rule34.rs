//! Rule34 client and model types.

pub use crate::client::rule34::Rule34Client;
pub use crate::model::rule34::{Rule34Post, Rule34Rating};
