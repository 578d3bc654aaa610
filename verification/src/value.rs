//! Modelled foreign-value metadata: the datatype descriptor and the typecheck
//! markers that query it.

pub mod datatype;
