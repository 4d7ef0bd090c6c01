//! Coloring of the output.
use vstd::prelude::*;
use crate::text::str_eq;

verus! {

/// When to color the output.
#[derive(Clone, Copy, Debug, PartialEq, Eq, Structural)]
pub enum Coloring {
    Auto,
    Always,
    Never,
}

pub open spec fn coloring_named(s: Seq<char>) -> Option<Coloring> {
    if s == "auto"@ {
        Some(Coloring::Auto)
    } else if s == "always"@ {
        Some(Coloring::Always)
    } else if s == "never"@ {
        Some(Coloring::Never)
    } else {
        None
    }
}

impl Coloring {
    /// The value of that name, in lower case as on the command line.
    pub fn from_name(s: &str) -> (r: Option<Coloring>)
        ensures
            r == coloring_named(s@),
    {
        if str_eq(s, "auto") {
            Some(Coloring::Auto)
        } else if str_eq(s, "always") {
            Some(Coloring::Always)
        } else if str_eq(s, "never") {
            Some(Coloring::Never)
        } else {
            None
        }
    }
}

pub open spec fn color_choice(
    flag: Option<Coloring>,
    no_color: bool,
    configured: Option<Seq<char>>,
) -> Coloring {
    match flag {
        Some(c) => c,
        None => if no_color {
            Coloring::Never
        } else {
            match configured {
                Some(s) => match coloring_named(s) {
                    Some(c) => c,
                    None => Coloring::Auto,
                },
                None => Coloring::Auto,
            }
        },
    }
}

/// The coloring to use: the command-line flag when given; else never when
/// `NO_COLOR` is set; else the configured value when it names one; else
/// auto.
pub fn get_color(flag: Option<Coloring>, no_color: bool, configured: Option<&str>) -> (r: Coloring)
    ensures
        r == color_choice(
            flag,
            no_color,
            match configured {
                Some(s) => Some(s@),
                None => None,
            },
        ),
{
    if let Some(c) = flag {
        return c;
    }
    if no_color {
        return Coloring::Never;
    }
    if let Some(s) = configured {
        if let Some(c) = Coloring::from_name(s) {
            return c;
        }
    }
    Coloring::Auto
}

} // verus!
