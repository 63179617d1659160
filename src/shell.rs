use vstd::prelude::*;

verus! {

/// A name for what `str::to_lowercase` returns: the text in lower case, by
/// the Unicode case tables.
pub uninterp spec fn lower_of(s: Seq<char>) -> Seq<char>;

/// Relies on `str::to_lowercase`: the result depends on the text alone.
#[verifier::external_body]
fn lowercase(s: &str) -> (r: String)
    ensures
        r@ == lower_of(s@),
{
    s.to_lowercase()
}

/// How a process was started, from the values of its environment flags
/// (the caller reads the environment).
pub struct ShellManager {}

impl ShellManager {
    /// A flag is set when its value is `true` in any case.
    pub fn is_bool_flag_set(value: Option<String>) -> (r: bool)
        ensures
            r == (value matches Some(v) && lower_of(v@) == "true"@),
    {
        match value {
            Some(v) => {
                let lower = lowercase(v.as_str());
                let expected = "true".to_string();
                lower.eq(&expected)
            },
            None => false,
        }
    }

    /// The process runs as a background session (from the value of
    /// `CRUST_BG_MODE`).
    pub fn is_background_mode(value: Option<String>) -> (r: bool)
        ensures
            r == (value matches Some(v) && lower_of(v@) == "true"@),
    {
        ShellManager::is_bool_flag_set(value)
    }

    /// The process was started by the wrapping shell script (from the value
    /// of `CRUST_SHELL_INVOKE`).
    pub fn is_shell_invoke(value: Option<String>) -> (r: bool)
        ensures
            r == (value matches Some(v) && lower_of(v@) == "true"@),
    {
        ShellManager::is_bool_flag_set(value)
    }
}

} // verus!
