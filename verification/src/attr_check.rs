//! Validation of the functions tagged with the runtime `main` attributes.

use vstd::prelude::*;

verus! {

/// Why a function cannot be tagged with a runtime `main` attribute.
#[derive(Debug, Clone, Copy, PartialEq, Eq, Structural)]
pub enum MainAttrError {
    /// The tagged function is not called `main`.
    NotMain,
    /// The tagged function is not `async`.
    NotAsync,
}

impl MainAttrError {
    /// The compile error the attribute reports (both runtimes' `main` attributes report the same
    /// text).
    pub fn message(&self) -> (r: &'static str)
        ensures
            *self == MainAttrError::NotMain ==> r@
                == "only the main function can be tagged with #[async_std::main]"@,
            *self == MainAttrError::NotAsync ==> r@
                == "the async keyword is missing from the function declaration"@,
    {
        match self {
            MainAttrError::NotMain => "only the main function can be tagged with #[async_std::main]",
            MainAttrError::NotAsync => "the async keyword is missing from the function declaration",
        }
    }
}

/// What the attribute decides for a function with the given name and asyncness.
pub open spec fn main_attr_verdict(name: Seq<char>, is_async: bool) -> Result<(), MainAttrError> {
    if name != "main"@ {
        Err(MainAttrError::NotMain)
    } else if !is_async {
        Err(MainAttrError::NotAsync)
    } else {
        Ok(())
    }
}

/// Checks that the function tagged with a runtime `main` attribute is an `async fn main`.
///
/// The name is checked first, so a non-`async` function with another name is refused for its name.
pub fn check_main_fn(name: &str, is_async: bool) -> (r: Result<(), MainAttrError>)
    ensures
        r == main_attr_verdict(name@, is_async),
{
    let expected = String::from_str("main");
    let given = String::from_str(name);
    if !(given == expected) {
        Err(MainAttrError::NotMain)
    } else if !is_async {
        Err(MainAttrError::NotAsync)
    } else {
        Ok(())
    }
}

/// The attribute accepts exactly the functions named `main` that are `async`.
pub proof fn lemma_only_async_main_accepted(name: Seq<char>, is_async: bool)
    ensures
        main_attr_verdict(name, is_async) is Ok <==> (name == "main"@ && is_async),
{
}

} // verus!
