//! Types, scalars, column arrays and schemas.

pub mod data_array;
pub mod data_schema;
pub mod data_type;
pub mod data_value;

pub use self::data_array::{ArrayView, DataArray};
pub use self::data_schema::{DataField, DataSchema, FieldView};
pub use self::data_type::DataType;
pub use self::data_value::DataValue;
