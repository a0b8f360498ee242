//! What can go wrong at the Solana bridge.
use vstd::prelude::*;

use crate::text::{decimal, decimal_reads_back, is_numeral, number_in, write_decimal};

verus! {

/// What can go wrong at the Solana bridge.
#[derive(Debug)]
pub enum SolFailed {
    NotEnoughValue(u64),
    BadSolAddress(String),
    SolError(String),
    DecodeAndEncodeError(String),
}

/// The outcome of an operation of the Solana bridge.
pub type SolResult<T> = std::result::Result<T, SolFailed>;

impl SolFailed {
    /// How a failure reads.
    pub open spec fn message(self) -> Seq<char> {
        match self {
            SolFailed::NotEnoughValue(value) => "There is no enough value "@ + decimal(
                value as nat,
            ),
            SolFailed::BadSolAddress(err) => "Bad Sol Address: "@ + err@,
            SolFailed::DecodeAndEncodeError(err) => "Decode and decode keys error: "@ + err@,
            SolFailed::SolError(err) => "SolFailed: "@ + err@,
        }
    }

    /// How the failure reads.
    pub fn to_string(&self) -> (r: String)
        ensures
            r@ == self.message(),
    {
        match self {
            SolFailed::NotEnoughValue(value) => "There is no enough value ".to_owned().concat(
                write_decimal(*value).as_str(),
            ),
            SolFailed::BadSolAddress(err) => "Bad Sol Address: ".to_owned().concat(err.as_str()),
            SolFailed::DecodeAndEncodeError(err) => "Decode and decode keys error: ".to_owned()
                .concat(err.as_str()),
            SolFailed::SolError(err) => "SolFailed: ".to_owned().concat(err.as_str()),
        }
    }
}

impl From<String> for SolFailed {
    /// The failure that an error of another part of the node, which reads
    /// `err`, amounts to here.
    fn from(err: String) -> (r: SolFailed) {
        SolFailed::SolError(err)
    }
}

impl vstd::std_specs::convert::FromSpecImpl<String> for SolFailed {
    open spec fn obeys_from_spec() -> bool {
        true
    }

    open spec fn from_spec(err: String) -> SolFailed {
        SolFailed::SolError(err)
    }
}

/// A failure reads as what kind it is, and then as what it holds: the value in
/// decimal, or the text as it is.
pub proof fn failure_tells_what_it_holds(failure: SolFailed)
    ensures
        ({
            let message = failure.message();
            match failure {
                SolFailed::NotEnoughValue(value) => {
                    &&& message.take("There is no enough value "@.len() as int)
                        == "There is no enough value "@
                    &&& is_numeral(message.skip("There is no enough value "@.len() as int))
                    &&& number_in(message.skip("There is no enough value "@.len() as int)) == value
                },
                SolFailed::BadSolAddress(err) => {
                    &&& message.take("Bad Sol Address: "@.len() as int) == "Bad Sol Address: "@
                    &&& message.skip("Bad Sol Address: "@.len() as int) == err@
                },
                SolFailed::DecodeAndEncodeError(err) => {
                    &&& message.take("Decode and decode keys error: "@.len() as int)
                        == "Decode and decode keys error: "@
                    &&& message.skip("Decode and decode keys error: "@.len() as int) == err@
                },
                SolFailed::SolError(err) => {
                    &&& message.take("SolFailed: "@.len() as int) == "SolFailed: "@
                    &&& message.skip("SolFailed: "@.len() as int) == err@
                },
            }
        }),
{
    match failure {
        SolFailed::NotEnoughValue(value) => {
            decimal_reads_back(value as nat);
            affix(failure.message(), "There is no enough value "@, decimal(value as nat));
        },
        SolFailed::BadSolAddress(err) => affix(failure.message(), "Bad Sol Address: "@, err@),
        SolFailed::DecodeAndEncodeError(err) => affix(
            failure.message(),
            "Decode and decode keys error: "@,
            err@,
        ),
        SolFailed::SolError(err) => affix(failure.message(), "SolFailed: "@, err@),
    }
}

proof fn affix(text: Seq<char>, prefix: Seq<char>, rest: Seq<char>)
    requires
        text == prefix + rest,
    ensures
        text.take(prefix.len() as int) == prefix,
        text.skip(prefix.len() as int) == rest,
{
    assert(text.take(prefix.len() as int) =~= prefix);
    assert(text.skip(prefix.len() as int) =~= rest);
}

/// An error of another part of the node becomes the failure that holds how it
/// reads.
pub proof fn foreign_error_keeps_its_text(err: String)
    ensures
        ({
            let failure = <SolFailed as vstd::std_specs::convert::FromSpec<String>>::from_spec(err);
            failure is SolError && failure->SolError_0@ == err@
        }),
{
}

} // verus!
