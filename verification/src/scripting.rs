//! Shell scripts assembled from command lines.

use vstd::prelude::*;
use crate::text::{has_prefix, join_words, joined, starts_with};

verus! {

/// What `yash_quote::quoted` prints for `raw`: the word itself where the POSIX
/// shell reads it unchanged, else the word in single quotes, else in double
/// quotes with backslashes before the characters that stay special there.
pub uninterp spec fn posix_quoted(raw: Seq<char>) -> Seq<char>;

/// The quoted form of `raw` for a POSIX shell.
///
/// Trusted: calls `yash_quote::quoted` and renders it; the result is a function
/// of the word alone and goes by the name `posix_quoted`.
#[verifier::external_body]
fn posix_quote(raw: &str) -> (r: String)
    ensures
        r@ == posix_quoted(raw@),
{
    yash_quote::quoted(raw).to_string()
}

/// How one token of a command line is written in a script: an explicit
/// variable reference is put in double quotes so that it still expands, a
/// redirection is left alone, anything else is quoted for the shell.
pub open spec fn quoted_token(src: Seq<char>) -> Seq<char> {
    if has_prefix(src, "${"@) {
        "\""@ + src + "\""@
    } else if has_prefix(src, ">"@) {
        src
    } else {
        posix_quoted(src)
    }
}

/// The body of the script that runs one command line.
pub open spec fn command_body(tokens: Seq<Seq<char>>) -> Seq<char> {
    joined(tokens.map_values(|t: Seq<char>| quoted_token(t)), " \\\n    "@)
}

/// Quotes a token unless it is a variable reference or a redirection.
pub fn quoted(src: &String) -> (r: String)
    ensures
        r@ == quoted_token(src@),
{
    if starts_with(src.as_str(), "${") {
        String::from_str("\"").concat(src.as_str()).concat("\"")
    } else if starts_with(src.as_str(), ">") {
        src.clone()
    } else {
        posix_quote(src.as_str())
    }
}

/// A shell script body. It renders with a shebang header and the strict
/// evaluation flags, and can be combined with other scripts.
pub struct Script(String);

impl View for Script {
    type V = Seq<char>;

    closed spec fn view(&self) -> Seq<char> {
        self.0@
    }
}

impl DeepView for Script {
    type V = Seq<char>;

    open spec fn deep_view(&self) -> Seq<char> {
        self@
    }
}

/// The text a script with body `body` renders to.
pub open spec fn rendered(body: Seq<char>) -> Seq<char> {
    "#!/bin/bash\n"@ + "set -euo pipefail\n"@ + "\n"@ + body
}

/// `lhs` followed by `rhs` on a line of its own.
pub open spec fn sequenced(lhs: Seq<char>, rhs: Seq<char>) -> Seq<char> {
    lhs + "\n"@ + rhs
}

/// `lhs` with its output piped into `rhs`.
pub open spec fn piped(lhs: Seq<char>, rhs: Seq<char>) -> Seq<char> {
    lhs + " \\\n| "@ + rhs
}

/// The bodies of `scripts` in sequence; the empty body for none.
pub open spec fn sequenced_all(bodies: Seq<Seq<char>>) -> Seq<char> {
    joined(bodies, "\n"@)
}

impl Script {
    /// A script whose body is `str`, taken as it is.
    pub fn from_str(str: &str) -> (r: Self)
        ensures
            r@ == str@,
    {
        Script(String::from_str(str))
    }

    /// The script that runs the command line `tokens`: each token quoted, one
    /// per line, with continuation marks.
    pub fn from_vec(tokens: Vec<String>) -> (r: Self)
        ensures
            r@ == command_body(tokens.deep_view()),
    {
        let mut words: Vec<String> = Vec::new();
        let mut i: usize = 0;
        let ghost quoted_all = tokens.deep_view().map_values(|t: Seq<char>| quoted_token(t));
        proof {
            assert(words.deep_view() =~= quoted_all.take(0));
        }
        while i < tokens.len()
            invariant
                i <= tokens.len(),
                quoted_all == tokens.deep_view().map_values(|t: Seq<char>| quoted_token(t)),
                words.deep_view() == quoted_all.take(i as int),
            decreases tokens.len() - i,
        {
            let ghost before = words.deep_view();
            let word = quoted(&tokens[i]);
            words.push(word);
            proof {
                assert(words.deep_view() =~= before.push(word@));
                assert(quoted_all.take(i + 1) =~= quoted_all.take(i as int).push(
                    quoted_token(tokens@[i as int]@),
                ));
            }
            i += 1;
        }
        proof {
            assert(quoted_all.take(tokens.len() as int) =~= quoted_all);
        }
        Script(join_words(&words, " \\\n    "))
    }

    /// The script run in a subshell.
    pub fn subshell(&self) -> (r: Self)
        ensures
            r@ == "("@ + self@ + ")"@,
    {
        Script(String::from_str("(").concat(self.0.as_str()).concat(")"))
    }

    /// The script's text: the shebang line, the strict flags, an empty line and
    /// the body.
    pub fn to_string(&self) -> (r: String)
        ensures
            r@ == rendered(self@),
    {
        String::from_str("#!/bin/bash\n").concat("set -euo pipefail\n").concat("\n").concat(
            self.0.as_str(),
        )
    }

    /// The script's body, without the header.
    pub fn body(&self) -> (r: String)
        ensures
            r@ == self@,
    {
        self.0.clone()
    }

    /// `self`, then `rhs` on the next line.
    pub fn then_run(self, rhs: Script) -> (r: Script)
        ensures
            r@ == sequenced(self@, rhs@),
    {
        Script(self.0.concat("\n").concat(rhs.0.as_str()))
    }

    /// `self` with its output piped into `rhs`.
    pub fn pipe_into(self, rhs: Script) -> (r: Script)
        ensures
            r@ == piped(self@, rhs@),
    {
        Script(self.0.concat(" \\\n| ").concat(rhs.0.as_str()))
    }
}

impl Script {
    /// The scripts in sequence, each on a line of its own; the empty command
    /// line for none.
    pub fn sum(scripts: Vec<Script>) -> (r: Script)
        ensures
            r@ == sequenced_all(scripts.deep_view()),
    {
        let mut body = String::new();
        let mut i: usize = 0;
        let ghost bodies = scripts.deep_view();
        while i < scripts.len()
            invariant
                i <= scripts.len(),
                bodies == scripts.deep_view(),
                body@ == joined(bodies.take(i as int), "\n"@),
            decreases scripts.len() - i,
        {
            proof {
                let before = bodies.take(i as int);
                let after = bodies.take(i + 1);
                assert(after.drop_last() =~= before);
                assert(after.last() == scripts@[i as int]@);
                assert(before.len() == 0 ==> body@ =~= Seq::<char>::empty());
            }
            if i > 0 {
                body.append("\n");
            }
            let ghost prev = body@;
            body.append(scripts[i].0.as_str());
            proof {
                if i == 0 {
                    assert(body@ =~= scripts@[0]@);
                }
            }
            i += 1;
        }
        proof {
            assert(bodies.take(scripts.len() as int) =~= bodies);
        }
        Script(body)
    }
}

impl std::ops::Add<Script> for Script {
    type Output = Script;

    fn add(self, rhs: Script) -> (r: Script)
        ensures
            r@ == sequenced(self@, rhs@),
    {
        self.then_run(rhs)
    }
}

impl vstd::std_specs::ops::AddSpecImpl<Script> for Script {
    open spec fn obeys_add_spec() -> bool {
        false
    }

    open spec fn add_req(self, rhs: Script) -> bool {
        true
    }

    open spec fn add_spec(self, rhs: Script) -> Script {
        self
    }
}

impl std::ops::BitOr<Script> for Script {
    type Output = Script;

    fn bitor(self, rhs: Script) -> (r: Script)
        ensures
            r@ == piped(self@, rhs@),
    {
        self.pipe_into(rhs)
    }
}

impl vstd::std_specs::ops::BitOrSpecImpl<Script> for Script {
    open spec fn obeys_bitor_spec() -> bool {
        false
    }

    open spec fn bitor_req(self, rhs: Script) -> bool {
        true
    }

    open spec fn bitor_spec(self, rhs: Script) -> Script {
        self
    }
}

} // verus!
