//! The fax modem layer between the T.30 engine and the audio transport.
use vstd::prelude::*;

verus! {

/// State of the fax modem layer (V.17, V.27ter, V.29, V.21); it carries no
/// data of its own here.
pub struct FaxModemsState {
    reserved: (),
}

} // verus!
