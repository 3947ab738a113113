use vstd::prelude::*;
use crate::error::{DnsError, ErrorKind};

verus! {

/// One element of a label-list name input.
#[derive(Clone, Debug)]
pub enum LabelItem {
    /// A binary label.
    Binary(Vec<u8>),
    /// Any value that is not binary.
    Other,
}

/// A value handed to the command, positionally or through the pipe.
#[derive(Clone, Debug)]
pub enum InputValue {
    /// No piped value.
    Nothing,
    /// A dotted-string name.
    Str(String),
    /// A name given as a list of labels.
    List(Vec<LabelItem>),
    /// Any other kind of value.
    Other,
}

/// Chooses between positional arguments and piped input: the pipe is used
/// alone when present, and both together are refused.
pub fn select_input(positional: Vec<InputValue>, piped: InputValue) -> (r: Result<
    Vec<InputValue>,
    DnsError,
>)
    ensures
        piped is Nothing ==> r is Ok && r->Ok_0@ == positional@,
        !(piped is Nothing) && positional@.len() > 0 ==> r is Err && r->Err_0.kind
            == ErrorKind::AmbiguousInput,
        !(piped is Nothing) && positional@.len() == 0 ==> r is Ok && r->Ok_0@ == seq![piped],
{
    match piped {
        InputValue::Nothing => Ok(positional),
        val => {
            if positional.len() > 0 {
                Err(
                    DnsError::new(
                        ErrorKind::AmbiguousInput,
                        "Input should either be positional args or piped, but not both".to_string(),
                    ),
                )
            } else {
                Ok(vec![val])
            }
        },
    }
}

} // verus!
