#![allow(non_snake_case)]

use vstd::prelude::*;

pub mod email;
pub mod logo;
pub mod model;
pub mod pagination;
pub mod qr;
pub mod sections;
pub mod text;

verus! {

} // verus!
