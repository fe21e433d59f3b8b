use vstd::prelude::*;
use vstd::string::StrSliceExecFns;

verus! {

/// What the cleaner reads of one filesystem path: the whole path as text,
/// when it is valid UTF-8, and the final path component, when the path has
/// one and it can be shown as a name. Directory listings are taken at the
/// boundary, so the caller fills both fields from the platform path it got.
#[derive(Debug, PartialEq, Eq)]
pub struct EntryPath {
    /// The whole path as text; `None` when it is not valid UTF-8.
    pub text: Option<String>,
    /// The final path component; `None` when the path has none (a root-like
    /// path) or the component is not valid UTF-8.
    pub name: Option<String>,
}

impl Clone for EntryPath {
    fn clone(&self) -> (r: Self)
        ensures
            r == *self,
    {
        let text = match &self.text {
            Some(s) => Some(s.clone()),
            None => None,
        };
        let name = match &self.name {
            Some(s) => Some(s.clone()),
            None => None,
        };
        EntryPath { text, name }
    }
}

/// A leading `.` component is dropped from a path's text: `./a/b` shows as
/// `a/b`, a bare `.` shows as the empty string, anything else is unchanged.
pub open spec fn spec_strip_leading_dot(s: Seq<char>) -> Seq<char> {
    if s.len() >= 2 && s[0] == '.' && s[1] == '/' {
        s.subrange(2, s.len() as int)
    } else if s.len() == 1 && s[0] == '.' {
        Seq::empty()
    } else {
        s
    }
}

/// How a path is rendered for humans.
pub open spec fn spec_print_path(path: EntryPath) -> Seq<char> {
    match path.text {
        Some(s) => spec_strip_leading_dot(s@),
        None => "<non-utf8 path>"@,
    }
}

/// Render a path for humans: a leading `.` component is dropped, and a path
/// that is not valid UTF-8 is shown as a fixed placeholder.
pub fn print_path(path: &EntryPath) -> (r: String)
    ensures
        r@ == spec_print_path(*path),
{
    match &path.text {
        Some(s) => {
            let st = s.as_str();
            let n = st.unicode_len();
            if n >= 2 && st.get_char(0) == '.' && st.get_char(1) == '/' {
                let rest = st.substring_char(2, n);
                rest.to_owned()
            } else if n == 1 && st.get_char(0) == '.' {
                String::new()
            } else {
                s.clone()
            }
        },
        None => "<non-utf8 path>".to_owned(),
    }
}

} // verus!
