//! The user's color preference and the policy that resolves it, once, against
//! the environment into a decision to emit styles or not.

use crate::text::{chars_of, is_word, lowercase, to_lowercase};
use vstd::prelude::*;
use vstd::string::StringExecFns;

verus! {

/// The color preference of an end user.
#[derive(Clone, Copy, Debug, PartialEq, Eq, Structural)]
pub enum ColorChoice {
    /// Try very hard to emit colors, including on a console on which ANSI
    /// interpretation first has to be switched on.
    Always,
    /// Like `Always`, but never anything other than ANSI escape sequences.
    AlwaysAnsi,
    /// Emit colors unless the environment speaks against it.
    Auto,
    /// Never emit colors.
    Never,
}

impl Default for ColorChoice {
    /// The default is `Auto`.
    fn default() -> (r: ColorChoice)
        ensures
            r == ColorChoice::Auto,
    {
        ColorChoice::Auto
    }
}

/// The kind of platform the output target lives on.
#[derive(Clone, Copy, Debug, PartialEq, Eq, Structural)]
pub enum Platform {
    /// The terminal-type variable is set wherever a terminal is attached, so
    /// its absence speaks against colors. ANSI is always interpreted.
    Unix,
    /// The terminal-type variable is often absent, which says nothing. The
    /// console interprets ANSI only once that has been negotiated.
    Windows,
}

/// What the terminal-type variable (`TERM`) holds.
#[derive(Clone, Debug, PartialEq, Eq)]
pub enum TermValue {
    /// The variable is not set.
    Unset,
    /// The variable is set to something that is not Unicode text.
    NotUnicode,
    /// The variable is set to this text.
    Text(String),
}

/// The signals of the environment that the policy consults. The caller reads
/// them once, when a writer is made.
#[derive(Clone, Debug, PartialEq, Eq)]
pub struct Environment {
    /// The platform of the output target.
    pub platform: Platform,
    /// The terminal-type variable.
    pub term: TermValue,
    /// Whether `NO_COLOR` is set, to any value.
    pub no_color: bool,
}

/// Whether the terminal-type variable is set to exactly `name`.
pub open spec fn term_is(term: TermValue, name: Seq<char>) -> bool {
    term matches TermValue::Text(s) && s@ == name
}

/// The name by which a terminal says that it interprets nothing.
pub open spec fn dumb() -> Seq<char> {
    seq!['d', 'u', 'm', 'b']
}

/// The name of a terminal on which ANSI must not be forced.
pub open spec fn cygwin() -> Seq<char> {
    seq!['c', 'y', 'g', 'w', 'i', 'n']
}

/// Whether the environment allows colors where the user leaves the choice to
/// it: `NO_COLOR` is not set, the terminal is not `dumb`, and on Unix the
/// terminal-type variable is set at all.
pub open spec fn env_allows_color(env: Environment) -> bool {
    &&& !env.no_color
    &&& !term_is(env.term, dumb())
    &&& env.platform is Unix ==> !(env.term is Unset)
}

/// Whether styles are attempted at all.
pub open spec fn attempts_color(choice: ColorChoice, env: Environment) -> bool {
    match choice {
        ColorChoice::Always => true,
        ColorChoice::AlwaysAnsi => true,
        ColorChoice::Never => false,
        ColorChoice::Auto => env_allows_color(env),
    }
}

/// Whether ANSI escape sequences are used on a Windows console without
/// regard to whether the console agreed to interpret them. On Unix nothing
/// needs forcing.
pub open spec fn forces_ansi(choice: ColorChoice, env: Environment) -> bool {
    env.platform is Windows && match choice {
        ColorChoice::Always => false,
        ColorChoice::AlwaysAnsi => true,
        ColorChoice::Never => false,
        ColorChoice::Auto => env.term is Text && !term_is(env.term, dumb()) && !term_is(
            env.term,
            cygwin(),
        ),
    }
}

/// Whether the console has to be asked to interpret ANSI escape sequences
/// before a writer to it is made: on Windows, whenever styles are attempted.
pub open spec fn negotiates(choice: ColorChoice, env: Environment) -> bool {
    env.platform is Windows && attempts_color(choice, env)
}

/// Whether a writer to a device renders styles as ANSI escape sequences,
/// given the outcome `enabled` of the negotiation with the console (of no
/// account where none was called for).
pub open spec fn device_uses_ansi(choice: ColorChoice, env: Environment, enabled: bool) -> bool {
    attempts_color(choice, env) && (env.platform is Unix || enabled || forces_ansi(choice, env))
}

/// Whether an in-memory buffer renders styles as ANSI escape sequences. No
/// console stands behind a buffer, so on Windows only a forced ANSI counts.
pub open spec fn buffer_uses_ansi(choice: ColorChoice, env: Environment) -> bool {
    attempts_color(choice, env) && (env.platform is Unix || forces_ansi(choice, env))
}

impl TermValue {
    /// Returns true if and only if the variable is set to exactly `name`.
    pub fn is(&self, name: &[char]) -> (r: bool)
        ensures
            r == term_is(*self, name@),
    {
        match self {
            TermValue::Text(s) => {
                let cs = chars_of(s.as_str());
                let r = is_word(cs.as_slice(), 0, cs.len(), name);
                assert(cs@.subrange(0, cs@.len() as int) =~= s@);
                r
            },
            _ => false,
        }
    }

    /// Returns true if and only if the variable is set to `dumb`.
    pub fn is_dumb(&self) -> (r: bool)
        ensures
            r == term_is(*self, dumb()),
    {
        let name: [char; 4] = ['d', 'u', 'm', 'b'];
        self.is(name.as_slice())
    }

    /// Returns true if and only if the variable is set to `cygwin`.
    pub fn is_cygwin(&self) -> (r: bool)
        ensures
            r == term_is(*self, cygwin()),
    {
        let name: [char; 6] = ['c', 'y', 'g', 'w', 'i', 'n'];
        self.is(name.as_slice())
    }
}

impl ColorChoice {
    /// Returns true if styles should be attempted at all.
    pub fn should_attempt_color(&self, env: &Environment) -> (r: bool)
        ensures
            r == attempts_color(*self, *env),
    {
        match *self {
            ColorChoice::Always => true,
            ColorChoice::AlwaysAnsi => true,
            ColorChoice::Never => false,
            ColorChoice::Auto => self.env_allows_color(env),
        }
    }

    /// Returns true if the environment allows colors where the choice is
    /// left to it.
    pub fn env_allows_color(&self, env: &Environment) -> (r: bool)
        ensures
            r == env_allows_color(*env),
    {
        match env.platform {
            Platform::Unix => {
                // Without a terminal type there is most likely no terminal.
                match env.term {
                    TermValue::Unset => {
                        return false;
                    },
                    _ => {
                        if env.term.is_dumb() {
                            return false;
                        }
                    },
                }
            },
            Platform::Windows => {
                // Here a missing terminal type says nothing.
                if env.term.is_dumb() {
                    return false;
                }
            },
        }
        // The terminal is not dumb, so only NO_COLOR can still forbid colors.
        if env.no_color {
            return false;
        }
        true
    }

    /// Returns true if ANSI escape sequences should be used on a Windows
    /// console whether or not it agreed to interpret them. ANSI may still be
    /// the right choice where this returns false.
    pub fn should_force_ansi(&self, env: &Environment) -> (r: bool)
        ensures
            r == forces_ansi(*self, *env),
    {
        match env.platform {
            Platform::Unix => false,
            Platform::Windows => match *self {
                ColorChoice::Always => false,
                ColorChoice::AlwaysAnsi => true,
                ColorChoice::Never => false,
                ColorChoice::Auto => match env.term {
                    TermValue::Text(_) => !env.term.is_dumb() && !env.term.is_cygwin(),
                    _ => false,
                },
            },
        }
    }

    /// Resolves the choice against the environment, once and for all: the
    /// first answer is whether styles are attempted, the second whether ANSI
    /// is forced on a Windows console.
    pub fn resolve(&self, env: &Environment) -> (r: (bool, bool))
        ensures
            r.0 == attempts_color(*self, *env),
            r.1 == forces_ansi(*self, *env),
    {
        (self.should_attempt_color(env), self.should_force_ansi(env))
    }

    /// Returns true if the console has to be asked to interpret ANSI escape
    /// sequences before a writer to it is made.
    pub fn should_negotiate(&self, env: &Environment) -> (r: bool)
        ensures
            r == negotiates(*self, *env),
    {
        match env.platform {
            Platform::Unix => false,
            Platform::Windows => self.should_attempt_color(env),
        }
    }

    /// Decides whether a writer to a device renders styles as ANSI escape
    /// sequences. `enabled` is the outcome of the negotiation with the
    /// console; where `should_negotiate` is false it is of no account.
    pub fn use_ansi_on_device(&self, env: &Environment, enabled: bool) -> (r: bool)
        ensures
            r == device_uses_ansi(*self, *env, enabled),
    {
        if !self.should_attempt_color(env) {
            return false;
        }
        match env.platform {
            Platform::Unix => true,
            Platform::Windows => enabled || self.should_force_ansi(env),
        }
    }

    /// Decides whether an in-memory buffer renders styles as ANSI escape
    /// sequences.
    pub fn use_ansi_in_buffer(&self, env: &Environment) -> (r: bool)
        ensures
            r == buffer_uses_ansi(*self, *env),
    {
        if !self.should_attempt_color(env) {
            return false;
        }
        match env.platform {
            Platform::Unix => true,
            Platform::Windows => self.should_force_ansi(env),
        }
    }

    /// The choice that a lowercase name stands for: `always`,
    /// `always-ansi`, `never` or `auto`.
    pub open spec fn named(name: Seq<char>) -> Option<ColorChoice> {
        if name == "always"@ {
            Some(ColorChoice::Always)
        } else if name == "always-ansi"@ {
            Some(ColorChoice::AlwaysAnsi)
        } else if name == "never"@ {
            Some(ColorChoice::Never)
        } else if name == "auto"@ {
            Some(ColorChoice::Auto)
        } else {
            None
        }
    }

    /// Looks up the choice that an already lowercased name stands for. The
    /// error carries the name.
    pub fn from_lowercase(name: String) -> (r: Result<ColorChoice, ColorChoiceParseError>)
        ensures
            match r {
                Ok(choice) => ColorChoice::named(name@) == Some(choice),
                Err(e) => ColorChoice::named(name@) is None && e@ == name@,
            },
    {
        let cs = chars_of(name.as_str());
        let n = cs.len();
        let always: [char; 6] = ['a', 'l', 'w', 'a', 'y', 's'];
        let always_ansi: [char; 11] = ['a', 'l', 'w', 'a', 'y', 's', '-', 'a', 'n', 's', 'i'];
        let never: [char; 5] = ['n', 'e', 'v', 'e', 'r'];
        let auto: [char; 4] = ['a', 'u', 't', 'o'];
        proof {
            reveal_strlit("always");
            reveal_strlit("always-ansi");
            reveal_strlit("never");
            reveal_strlit("auto");
            assert(always@ =~= "always"@);
            assert(always_ansi@ =~= "always-ansi"@);
            assert(never@ =~= "never"@);
            assert(auto@ =~= "auto"@);
            assert(cs@.subrange(0, n as int) =~= name@);
        }
        if is_word(cs.as_slice(), 0, n, always.as_slice()) {
            Ok(ColorChoice::Always)
        } else if is_word(cs.as_slice(), 0, n, always_ansi.as_slice()) {
            Ok(ColorChoice::AlwaysAnsi)
        } else if is_word(cs.as_slice(), 0, n, never.as_slice()) {
            Ok(ColorChoice::Never)
        } else if is_word(cs.as_slice(), 0, n, auto.as_slice()) {
            Ok(ColorChoice::Auto)
        } else {
            Err(ColorChoiceParseError { unknown_choice: name })
        }
    }

    /// Parses a choice from its name, in any mix of upper and lower case.
    /// Any other text is an error that carries the text in lowercase.
    pub fn from_str(s: &str) -> (r: Result<ColorChoice, ColorChoiceParseError>)
        ensures
            match r {
                Ok(choice) => ColorChoice::named(lowercase(s@)) == Some(choice),
                Err(e) => ColorChoice::named(lowercase(s@)) is None && e@ == lowercase(s@),
            },
    {
        ColorChoice::from_lowercase(to_lowercase(s))
    }
}

impl std::str::FromStr for ColorChoice {
    type Err = ColorChoiceParseError;

    fn from_str(s: &str) -> (r: Result<ColorChoice, ColorChoiceParseError>)
        ensures
            match r {
                Ok(choice) => ColorChoice::named(lowercase(s@)) == Some(choice),
                Err(e) => ColorChoice::named(lowercase(s@)) is None && e@ == lowercase(s@),
            },
    {
        ColorChoice::from_str(s)
    }
}

/// The error of parsing a color choice from a text that names none.
#[derive(Clone, Debug)]
pub struct ColorChoiceParseError {
    unknown_choice: String,
}

impl View for ColorChoiceParseError {
    type V = Seq<char>;

    /// The text that names no choice.
    closed spec fn view(&self) -> Seq<char> {
        self.unknown_choice@
    }
}

impl ColorChoiceParseError {
    /// Returns the text that could not be parsed as a color choice.
    pub fn invalid_choice(&self) -> (r: &str)
        ensures
            r@ == self@,
    {
        self.unknown_choice.as_str()
    }

    /// The message for the user: the text that was given and the choices
    /// there are.
    pub fn to_string(&self) -> (r: String)
        ensures
            r@ == "unrecognized color choice '"@ + self@
                + "': valid choices are: always, always-ansi, never, auto"@,
    {
        let mut msg = String::from_str("unrecognized color choice '");
        msg.append(self.unknown_choice.as_str());
        msg.append("': valid choices are: always, always-ansi, never, auto");
        msg
    }
}

/// Where the user leaves the choice to the environment, `NO_COLOR` always
/// wins: no style is attempted, whatever the terminal-type variable holds.
/// Against an explicit `Always` it counts for nothing.
pub proof fn lemma_no_color_wins(env: Environment)
    requires
        env.no_color,
    ensures
        !attempts_color(ColorChoice::Auto, env),
        attempts_color(ColorChoice::Always, env),
        attempts_color(ColorChoice::AlwaysAnsi, env),
{
}

/// Whatever the environment, `Never` attempts no style and no writer made
/// for it renders any.
pub proof fn lemma_never_is_plain(env: Environment, enabled: bool)
    ensures
        !attempts_color(ColorChoice::Never, env),
        !device_uses_ansi(ColorChoice::Never, env, enabled),
        !buffer_uses_ansi(ColorChoice::Never, env),
        !negotiates(ColorChoice::Never, env),
{
}

} // verus!
