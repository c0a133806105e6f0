//! Where the OAuth token comes from: the file `~/.config/ymz/token` first,
//! then the `YM_TOKEN` environment variable, each with surrounding
//! whitespace removed and used only when something is left.
use vstd::prelude::*;
use vstd::string::*;

use crate::text::{trim, trim_spec};

verus! {

/// Where the token file lies, under the home directory.
pub const TOKEN_FILE: &'static str = ".config/ymz/token";

/// The environment variable that may hold the token.
pub const TOKEN_ENV_VAR: &'static str = "YM_TOKEN";

/// The message when no token is found.
pub const TOKEN_NOT_FOUND: &'static str = "Токен не найден! Создайте ~/.config/ymz/token с правами 600 или передайте YM_TOKEN";

/// A token taken from a source: the trimmed text, where it is not empty.
pub open spec fn usable_token(source: Option<Seq<char>>) -> Option<Seq<char>> {
    match source {
        Some(t) => if trim_spec(t).len() > 0 {
            Some(trim_spec(t))
        } else {
            None
        },
        None => None,
    }
}

/// The token chosen from the file content and the environment value: the
/// file's where it is usable, else the environment's.
pub open spec fn token_choice(file_content: Option<Seq<char>>, env_value: Option<Seq<char>>) -> Option<
    Seq<char>,
> {
    match usable_token(file_content) {
        Some(t) => Some(t),
        None => usable_token(env_value),
    }
}

/// The view of an optional text.
pub open spec fn opt_str_view(o: Option<&str>) -> Option<Seq<char>> {
    match o {
        Some(s) => Some(s@),
        None => None,
    }
}

fn usable(source: Option<&str>) -> (r: Option<String>)
    ensures
        match r {
            Some(t) => usable_token(opt_str_view(source)) == Some(t@),
            None => usable_token(opt_str_view(source)) is None,
        },
{
    match source {
        Some(s) => {
            let t = trim(s);
            if t.as_str().unicode_len() > 0 {
                Some(t)
            } else {
                None
            }
        },
        None => None,
    }
}

/// Chooses the token from the content of the token file (`None` where it
/// could not be read) and the value of `YM_TOKEN` (`None` where it is not set).
pub fn select_token(file_content: Option<&str>, env_value: Option<&str>) -> (r: Result<String, String>)
    ensures
        match token_choice(opt_str_view(file_content), opt_str_view(env_value)) {
            Some(t) => r matches Ok(v) && v@ == t,
            None => r matches Err(e) && e@ == TOKEN_NOT_FOUND@,
        },
{
    match usable(file_content) {
        Some(t) => Ok(t),
        None => match usable(env_value) {
            Some(t) => Ok(t),
            None => Err(TOKEN_NOT_FOUND.to_string()),
        },
    }
}

/// A usable token in the file is taken, whatever the environment holds.
pub proof fn law_file_token_wins(file_content: Seq<char>, env_value: Option<Seq<char>>)
    requires
        trim_spec(file_content).len() > 0,
    ensures
        token_choice(Some(file_content), env_value) == Some(trim_spec(file_content)),
{
}

/// A chosen token never starts or ends with whitespace and is never empty.
pub proof fn law_token_trimmed(file_content: Option<Seq<char>>, env_value: Option<Seq<char>>)
    ensures
        token_choice(file_content, env_value) matches Some(t) ==> t.len() > 0
            && !crate::text::unicode_whitespace(t[0]) && !crate::text::unicode_whitespace(t.last()),
{
    if let Some(f) = file_content {
        crate::text::lemma_trim_edges(f);
    }
    if let Some(e) = env_value {
        crate::text::lemma_trim_edges(e);
    }
}

} // verus!
