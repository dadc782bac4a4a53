//! What a caller may ask of the emitter.
use vstd::prelude::*;

verus! {

/// The edition of the language that the text is written for.
#[derive(Clone, Copy, Debug, PartialEq, Eq, Structural)]
pub enum EcmaVersion {
    Es3,
    Es5,
    Es2015,
    Es2016,
    Es2017,
    Es2018,
    Es2019,
    Es2020,
}

impl EcmaVersion {
    /// From the edition of 2017 on, the arguments of a call may end in a
    /// comma.
    pub open spec fn spec_allows_trailing_comma_in_calls(&self) -> bool {
        !(*self == EcmaVersion::Es3 || *self == EcmaVersion::Es5 || *self == EcmaVersion::Es2015
            || *self == EcmaVersion::Es2016)
    }

    #[verifier::when_used_as_spec(spec_allows_trailing_comma_in_calls)]
    pub fn allows_trailing_comma_in_calls(&self) -> (r: bool)
        ensures
            r == self.spec_allows_trailing_comma_in_calls(),
    {
        match self {
            EcmaVersion::Es3 | EcmaVersion::Es5 | EcmaVersion::Es2015 | EcmaVersion::Es2016 => false,
            _ => true,
        }
    }
}

#[derive(Clone, Copy, Debug, PartialEq, Eq, Structural)]
pub struct Config {
    /// Leave out every space and line break that only serves the reader.
    pub minify: bool,
    /// Leave out the semicolon that ends the last top-level statement.
    pub omit_last_semicolon: bool,
    /// Have the writer note where the tokens of the source went.
    pub source_map: bool,
    /// The edition that the text is written for: it decides whether the
    /// arguments of a call may keep a trailing comma.
    pub target: EcmaVersion,
}

impl Default for Config {
    fn default() -> (r: Config)
        ensures
            !r.minify,
            !r.omit_last_semicolon,
            !r.source_map,
            r.target == EcmaVersion::Es5,
    {
        Config {
            minify: false,
            omit_last_semicolon: false,
            source_map: false,
            target: EcmaVersion::Es5,
        }
    }
}

} // verus!
