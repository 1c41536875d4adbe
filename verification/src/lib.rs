use vstd::prelude::*;

pub mod bytes;
pub mod text;
pub mod ratio;
pub mod pentax;
pub mod types;
pub mod tiff;
pub mod nikon;
pub mod nikon_af;
pub mod nikon_flash;
pub mod nikon_wb;
pub mod nikon_lens;
pub mod nikon_parse;
pub mod olympus;
pub mod panasonic;

verus! {

} // verus!
