//! Configuration: which module, which file, which function, which channel.

use vstd::prelude::*;

use crate::function_query::FunctionQuery;
use crate::semver::{range_parses, semver_satisfies, version_in_range, version_parses, check_range};

verus! {

/// Relies on `String::push`: appends one character at the end.
#[verifier::external_body]
fn push_char(s: &mut String, c: char)
    ensures
        final(s)@ == old(s)@.push(c),
{
    s.push(c)
}

/// Whether a character passes through channel-name sanitizing unchanged:
/// ASCII digits and letters do, everything else becomes an underscore.
pub open spec fn is_ident_char(c: char) -> bool {
    (48 <= c as u32 && c as u32 <= 57) || (65 <= c as u32 && c as u32 <= 90) || (97 <= c as u32
        && c as u32 <= 122)
}

/// One sanitized character.
pub open spec fn sanitize_char(c: char) -> char {
    if is_ident_char(c) {
        c
    } else {
        '_'
    }
}

/// A channel name turned into an identifier: every character that is not an
/// ASCII letter or digit becomes an underscore.
pub open spec fn sanitize_id(s: Seq<char>) -> Seq<char> {
    s.map_values(|c: char| sanitize_char(c))
}

/// Describes the module and file path to match.
#[derive(Debug)]
pub struct ModuleMatcher {
    /// The name of the module.
    pub name: String,
    /// The source text of the semver range the module's version must satisfy.
    pub version_range: String,
    /// The path of the file, relative to the module root.
    pub file_path: String,
}

/// What [`ModuleMatcher::matches`] answers: the names must be equal, the
/// stored range and the offered version must both parse, the version must lie
/// in the range, and the paths must be equal byte for byte.
pub open spec fn module_matches(
    name: Seq<char>,
    version_range: Seq<char>,
    file_path: Seq<char>,
    module_name: Seq<char>,
    version: Seq<char>,
    path: Seq<char>,
) -> bool {
    &&& name == module_name
    &&& range_parses(version_range)
    &&& version_parses(version)
    &&& version_in_range(version, version_range)
    &&& file_path == path
}

impl ModuleMatcher {
    /// Builds a matcher, rejecting a range source that does not parse.
    pub fn new(name: &str, version_range: &str, file_path: &str) -> (r: Result<
        Self,
        nodejs_semver::SemverError,
    >)
        ensures
            r is Ok <==> range_parses(version_range@),
            r matches Ok(m) ==> m.name@ == name@ && m.version_range@ == version_range@
                && m.file_path@ == file_path@,
    {
        match check_range(version_range) {
            Ok(_) => Ok(
                ModuleMatcher {
                    name: String::from_str(name),
                    version_range: String::from_str(version_range),
                    file_path: String::from_str(file_path),
                },
            ),
            Err(e) => Err(e),
        }
    }

    /// Whether this matcher selects the given module, version and file. A
    /// version that does not parse never matches, and neither does a stored
    /// range that does not parse.
    pub fn matches(&self, module_name: &str, version: &str, file_path: &str) -> (r: bool)
        ensures
            r == module_matches(
                self.name@,
                self.version_range@,
                self.file_path@,
                module_name@,
                version@,
                file_path@,
            ),
    {
        let name_ok = self.name.eq(&String::from_str(module_name));
        let path_ok = self.file_path.eq(&String::from_str(file_path));
        name_ok && semver_satisfies(version, self.version_range.as_str()) && path_ok
    }

    /// An equal copy of the matcher.
    pub fn duplicate(&self) -> (r: Self)
        ensures
            r == *self,
    {
        ModuleMatcher {
            name: self.name.clone(),
            version_range: self.version_range.clone(),
            file_path: self.file_path.clone(),
        }
    }
}

/// Configuration for injecting one instrumentation.
#[derive(Debug)]
pub struct InstrumentationConfig {
    /// The name of the diagnostics channel to publish on.
    pub channel_name: String,
    /// The module matcher naming the module and file to instrument.
    pub module: ModuleMatcher,
    /// The function query naming the function to instrument.
    pub function_query: FunctionQuery,
}

impl InstrumentationConfig {
    /// Builds a configuration from its parts.
    pub fn new(channel_name: &str, module: ModuleMatcher, function_query: FunctionQuery) -> (r:
        Self)
        ensures
            r.channel_name@ == channel_name@,
            r.module == module,
            r.function_query == function_query,
    {
        InstrumentationConfig {
            channel_name: String::from_str(channel_name),
            module,
            function_query,
        }
    }

    /// The channel name with every character that is not an ASCII letter or
    /// digit replaced by an underscore, fit for use in an identifier.
    pub fn get_identifier_name(&self) -> (r: String)
        ensures
            r@ == sanitize_id(self.channel_name@),
    {
        let s = self.channel_name.as_str();
        let n = s.unicode_len();
        let mut out = String::new();
        let mut i: usize = 0;
        while i < n
            invariant
                n == s@.len(),
                i <= n,
                out@ == sanitize_id(s@.subrange(0, i as int)),
            decreases n - i,
        {
            let c = s.get_char(i);
            let mapped: char = {
                let u = c as u32;
                if (48 <= u && u <= 57) || (65 <= u && u <= 90) || (97 <= u && u <= 122) {
                    c
                } else {
                    '_'
                }
            };
            push_char(&mut out, mapped);
            proof {
                assert(s@.subrange(0, i + 1).map_values(|c: char| sanitize_char(c)) =~= s
                    @.subrange(0, i as int).map_values(|c: char| sanitize_char(c)).push(
                    sanitize_char(s@[i as int]),
                ));
            }
            i = i + 1;
        }
        proof {
            assert(s@.subrange(0, n as int) =~= s@);
        }
        out
    }

    /// Whether this configuration applies to the given module, version and
    /// file.
    pub fn matches(&self, module_name: &str, version: &str, file_path: &str) -> (r: bool)
        ensures
            r == module_matches(
                self.module.name@,
                self.module.version_range@,
                self.module.file_path@,
                module_name@,
                version@,
                file_path@,
            ),
    {
        self.module.matches(module_name, version, file_path)
    }

    /// An equal copy of the configuration.
    pub fn duplicate(&self) -> (r: Self)
        ensures
            r == *self,
    {
        InstrumentationConfig {
            channel_name: self.channel_name.clone(),
            module: self.module.duplicate(),
            function_query: self.function_query.duplicate(),
        }
    }
}

/// The whole catalog: an ordered list of instrumentations and the module the
/// channel factory is imported from.
#[derive(Debug)]
pub struct Config {
    pub instrumentations: Vec<InstrumentationConfig>,
    pub dc_module: String,
}

impl Config {
    /// Builds a catalog; without an explicit channel module the runtime's
    /// `diagnostics_channel` is used.
    pub fn new(instrumentations: Vec<InstrumentationConfig>, dc_module: Option<String>) -> (r:
        Self)
        ensures
            r.instrumentations == instrumentations,
            match dc_module {
                Option::Some(m) => r.dc_module@ == m@,
                Option::None => r.dc_module@ == "diagnostics_channel"@,
            },
    {
        Config {
            instrumentations,
            dc_module: match dc_module {
                Option::Some(m) => m,
                Option::None => String::from_str("diagnostics_channel"),
            },
        }
    }

    /// A catalog of one instrumentation with the default channel module.
    pub fn new_single(instrumentation: InstrumentationConfig) -> (r: Self)
        ensures
            r.instrumentations@ == seq![instrumentation],
            r.dc_module@ == "diagnostics_channel"@,
    {
        let mut v: Vec<InstrumentationConfig> = Vec::new();
        v.push(instrumentation);
        proof {
            assert(v@ =~= seq![instrumentation]);
        }
        Config::new(v, Option::None)
    }
}

} // verus!
