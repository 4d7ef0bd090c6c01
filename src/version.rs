//! The version line.
use vstd::prelude::*;
use crate::text::push_str;

verus! {

/// What `--version` prints; `verbose` adds the printer's version.
#[derive(Debug)]
pub struct Version {
    pub verbose: bool,
}

impl Version {
    /// `cargo-expand <version>`, and in verbose mode
    /// ` + prettyplease <version>` when that version is known.
    pub fn to_string(&self, version: &str, prettyplease_version: Option<&str>) -> (r: String)
        ensures
            r@ == "cargo-expand "@ + version@ + match prettyplease_version {
                Some(p) => if self.verbose {
                    " + prettyplease "@ + p@
                } else {
                    Seq::empty()
                },
                None => Seq::empty(),
            },
    {
        let mut out = "cargo-expand ".to_owned();
        push_str(&mut out, version);
        if self.verbose {
            if let Some(p) = prettyplease_version {
                push_str(&mut out, " + prettyplease ");
                push_str(&mut out, p);
                return out;
            }
        }
        assert(out@ =~= out@ + Seq::<char>::empty());
        out
    }
}

} // verus!
