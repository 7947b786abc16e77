//! Keeps the set of base rights closed.
use crate::rights::{RecvRight, SendOnceRight, SendRight};
use vstd::prelude::*;

verus! {

pub trait Sealed {

}

impl Sealed for RecvRight {

}

impl Sealed for SendRight {

}

impl Sealed for SendOnceRight {

}

} // verus!
