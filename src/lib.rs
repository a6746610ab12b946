//! Adaptive breadcrumb trail and graduated rating selector: the decision
//! logic behind both widgets, with their rendering reduced to plain values.

pub mod style;
pub mod breadcrumb;
pub mod rating;
