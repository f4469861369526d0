//! Naming conventions of identifiers: telling which one a string is written
//! in, and converting it to another.

pub mod character;
pub mod command;
pub mod convention;
pub mod conversion;
pub mod convertor;
pub mod corrector;
pub mod fns;
pub mod laws;
pub mod naming_convertor;
pub mod naming_principal;
pub mod pipeline;
pub mod reserved_store;
pub mod round_trip;
pub mod rule;
pub mod text;

pub use convention::{Convention, Principal};
pub use fns::{
    is_camel, is_chain, is_constant, is_flat, is_non_principal, is_pascal, is_snake, to_camel,
    to_chain, to_constant, to_pascal, to_snake,
};
pub use naming_convertor::NamingPrincipalConvertor;
pub use naming_principal::NamingPrincipal;
pub use pipeline::{convert, Parameter, PostConvert, PreConvert};
