//! The body of a beacon on its own: what follows the sequence-control
//! field, decoded without the frame around it.

use crate::error::DecodeError;
use crate::ieee802_11::management_frame::{FixedParameters, TagView, TaggedParameters};
use crate::reader::Reader;
use vstd::prelude::*;
use vstd::slice::slice_to_vec;

verus! {

/// The body of a beacon.
#[derive(Clone, Debug, PartialEq, Eq)]
pub struct BeaconInfo {
    pub fixed_parameters: FixedParameters,
    pub tagged_parameters: TaggedParameters,
}

/// The body of a beacon, as a value of mathematics.
pub struct BeaconInfoView {
    pub fixed_parameters: FixedParameters,
    pub tagged_parameters: Seq<TagView>,
}

impl View for BeaconInfo {
    type V = BeaconInfoView;

    open spec fn view(&self) -> BeaconInfoView {
        BeaconInfoView {
            fixed_parameters: self.fixed_parameters,
            tagged_parameters: self.tagged_parameters@,
        }
    }
}

impl BeaconInfo {
    /// What decoding the body of a beacon off the bytes `s` gives: the
    /// fixed parameters in the first twelve bytes, and tagged parameters in
    /// all the rest.
    pub open spec fn spec_parse(s: Seq<u8>) -> Result<BeaconInfoView, DecodeError> {
        match FixedParameters::spec_parse(s) {
            Err(e) => Err(e),
            Ok(fixed_parameters) => match TaggedParameters::spec_parse(s.skip(12)) {
                Err(e) => Err(e),
                Ok(tagged_parameters) => Ok(BeaconInfoView { fixed_parameters, tagged_parameters }),
            },
        }
    }

    /// Decodes the body of a beacon.
    pub fn parse(bytes: &[u8]) -> (r: Result<BeaconInfo, DecodeError>)
        ensures
            match r {
                Ok(info) => Self::spec_parse(bytes@) == Ok::<BeaconInfoView, DecodeError>(info@),
                Err(e) => Self::spec_parse(bytes@) == Err::<BeaconInfoView, DecodeError>(e),
            },
    {
        let mut reader = Reader::new(slice_to_vec(bytes));
        assert(reader.remaining() =~= bytes@);
        let fixed_parameters = match FixedParameters::parse(&mut reader) {
            Ok(fixed_parameters) => fixed_parameters,
            Err(e) => {
                return Err(e);
            },
        };
        assert(reader.remaining() =~= bytes@.skip(12));
        match TaggedParameters::parse(&mut reader) {
            Ok(tagged_parameters) => Ok(BeaconInfo { fixed_parameters, tagged_parameters }),
            Err(e) => Err(e),
        }
    }
}

} // verus!
