//! Stored credentials: which platform a token belongs to, and the line format
//! in which the credentials file keeps them, one `Platform:token` per line.

use vstd::prelude::*;
use vstd::string::StringExecFns;
use secure_string::SecureString;
use strum::ParseError;
use crate::discord::Discord;
use crate::secure::{secure_clone, secure_string_from, secure_text, unsecure_copy};
use crate::text::{same_chars, split_once, split_once_spec, is_first_index, lemma_first_index_of};

verus! {

/// A messaging platform that a token belongs to.
#[derive(Clone, Copy, Debug, PartialEq, Eq, Structural)]
pub enum Platform {
    Discord,
    Unkown,
}

/// `strum::ParseError`, the error of parsing a name that no variant has.
#[verifier::external_type_specification]
#[verifier::external_body]
pub struct ExParseError(ParseError);

/// `strum::ParseError::VariantNotFound`, the error that strum's `EnumString`
/// parsers give for a name that no variant has. The source declares no other
/// variant of `ParseError`, so nothing is left to state of the value.
#[verifier::external_body]
fn variant_not_found() -> ParseError {
    ParseError::VariantNotFound
}

/// The name of a platform, as it is written in the credentials file.
pub open spec fn platform_name(p: Platform) -> Seq<char> {
    match p {
        Platform::Discord => "Discord"@,
        Platform::Unkown => "Unkown"@,
    }
}

/// The platform with the given name, names compared exactly (case included).
pub open spec fn platform_of_name(s: Seq<char>) -> Option<Platform> {
    if s == "Discord"@ {
        Some(Platform::Discord)
    } else if s == "Unkown"@ {
        Some(Platform::Unkown)
    } else {
        None
    }
}

impl Platform {
    /// The platform's name.
    pub fn name(&self) -> (r: &'static str)
        ensures
            r@ == platform_name(*self),
    {
        match self {
            Platform::Discord => "Discord",
            Platform::Unkown => "Unkown",
        }
    }

    /// The platform whose name is exactly `s`.
    pub fn from_str(s: &str) -> (r: Result<Platform, ParseError>)
        ensures
            match r {
                Ok(p) => platform_of_name(s@) == Some(p),
                Err(_) => platform_of_name(s@) is None,
            },
    {
        if same_chars(s, "Discord") {
            Ok(Platform::Discord)
        } else if same_chars(s, "Unkown") {
            Ok(Platform::Unkown)
        } else {
            Err(variant_not_found())
        }
    }
}

impl std::str::FromStr for Platform {
    type Err = ParseError;

    /// The platform whose name is exactly `s` (see `Platform::from_str`).
    fn from_str(s: &str) -> (r: Result<Platform, ParseError>)
        ensures
            match r {
                Ok(p) => platform_of_name(s@) == Some(p),
                Err(_) => platform_of_name(s@) is None,
            },
    {
        Platform::from_str(s)
    }
}

/// Reading a platform's name gives back the platform.
pub proof fn lemma_platform_name_roundtrip(p: Platform)
    ensures
        platform_of_name(platform_name(p)) == Some(p),
{
    reveal_strlit("Discord");
    reveal_strlit("Unkown");
    if p == Platform::Unkown {
        assert(platform_name(p).len() != "Discord"@.len());
    }
}

/// No platform name holds a colon.
pub proof fn lemma_platform_name_has_no_colon(p: Platform)
    ensures
        forall|j: int| 0 <= j < platform_name(p).len() ==> platform_name(p)[j] != ':',
{
    reveal_strlit("Discord");
    reveal_strlit("Unkown");
}

/// A token of some platform, kept in a `SecureString`.
pub struct Auth {
    pub platform: Platform,
    pub token: SecureString,
}

impl View for Auth {
    type V = (Platform, Seq<char>);

    /// The platform and the text of the token.
    open spec fn view(&self) -> (Platform, Seq<char>) {
        (self.platform, secure_text(self.token))
    }
}

/// The line that stands for a credential in the credentials file.
pub open spec fn auth_line(p: Platform, token: Seq<char>) -> Seq<char> {
    platform_name(p) + seq![':'] + token
}

/// The credential that a line of the credentials file holds: the platform
/// named before the first colon and the text after it. A line without a
/// colon holds none, and so does one whose platform is unknown.
pub open spec fn auth_of_line(line: Seq<char>) -> Option<(Platform, Seq<char>)> {
    match split_once_spec(line, ':') {
        Some((name, token)) => match platform_of_name(name) {
            Some(p) => Some((p, token)),
            None => None,
        },
        None => None,
    }
}

/// A line that the store can load: one without a colon (skipped), or one
/// that names a known platform before its first colon.
pub open spec fn line_loadable(line: Seq<char>) -> bool {
    match split_once_spec(line, ':') {
        Some((name, _)) => platform_of_name(name) is Some,
        None => true,
    }
}

/// The credentials that the lines of a file hold, in order.
pub open spec fn auths_of_lines(lines: Seq<Seq<char>>) -> Seq<(Platform, Seq<char>)>
    decreases lines.len(),
{
    if lines.len() == 0 {
        Seq::empty()
    } else {
        let before = auths_of_lines(lines.drop_last());
        match auth_of_line(lines.last()) {
            Some(a) => before.push(a),
            None => before,
        }
    }
}

/// The text of a file made of the given lines, each ended by a newline.
pub open spec fn file_text(lines: Seq<Seq<char>>) -> Seq<char>
    decreases lines.len(),
{
    if lines.len() == 0 {
        Seq::empty()
    } else {
        file_text(lines.drop_last()) + lines.last() + seq!['\n']
    }
}

/// The views of some strings.
pub open spec fn lines_view(lines: Seq<String>) -> Seq<Seq<char>> {
    lines.map_values(|l: String| l@)
}

/// The views of some credentials.
pub open spec fn auths_view(auths: Seq<Auth>) -> Seq<(Platform, Seq<char>)> {
    auths.map_values(|a: Auth| a@)
}

impl Auth {
    /// The credential that a line of the credentials file holds, if any.
    pub fn from_line(line: &str) -> (r: Option<Auth>)
        requires
            line_loadable(line@),
        ensures
            match r {
                Some(a) => auth_of_line(line@) == Some(a@),
                None => auth_of_line(line@) is None,
            },
    {
        match split_once(line, ':') {
            Some((name, token)) => {
                match Platform::from_str(name) {
                    Ok(platform) => {
                        let token = secure_string_from(token.to_owned());
                        Some(Auth { platform, token })
                    },
                    Err(_) => None,
                }
            },
            None => None,
        }
    }

    /// The client of the credential's platform, signed in with its token.
    /// Only Discord has a client.
    pub fn get_messanger(&self) -> (client: Discord)
        requires
            self.platform == Platform::Discord,
        ensures
            secure_text(client.token) == secure_text(self.token),
    {
        Discord { token: secure_clone(&self.token) }
    }

    /// The credential's line, `Platform:token`.
    pub fn to_string(&self) -> (r: String)
        ensures
            r@ == auth_line(self.platform, secure_text(self.token)),
    {
        let mut line = self.platform.name().to_owned();
        line.append(":");
        let token = unsecure_copy(&self.token);
        line.append(token.as_str());
        proof {
            reveal_strlit(":");
        }
        line
    }
}

/// Reading a credential's line gives back the credential: the platform's
/// name holds no colon, so the first colon is the one that follows it.
pub proof fn lemma_auth_line_roundtrip(p: Platform, token: Seq<char>)
    ensures
        auth_of_line(auth_line(p, token)) == Some((p, token)),
        line_loadable(auth_line(p, token)),
{
    let name = platform_name(p);
    let line = auth_line(p, token);
    lemma_platform_name_has_no_colon(p);
    assert(is_first_index(line, ':', name.len() as int));
    lemma_first_index_of(line, ':', name.len() as int);
    assert(line.take(name.len() as int) =~= name);
    assert(line.skip(name.len() as int + 1) =~= token);
    lemma_platform_name_roundtrip(p);
}

/// The credentials the client knows, in the order of the credentials file.
/// Reading and writing the file is left to the caller: `new` takes the
/// file's lines, and `add` and `file_after_removal` give the text to write.
pub struct AuthStore {
    auths: Vec<Auth>,
}

impl View for AuthStore {
    type V = Seq<(Platform, Seq<char>)>;

    closed spec fn view(&self) -> Seq<(Platform, Seq<char>)> {
        auths_view(self.auths@)
    }
}

impl AuthStore {
    /// The store that the lines of a credentials file describe: a line
    /// without a colon is skipped, every other line becomes a credential.
    pub fn new(lines: &Vec<String>) -> (store: AuthStore)
        requires
            forall|i: int| 0 <= i < lines@.len() ==> #[trigger] line_loadable(lines@[i]@),
        ensures
            store@ == auths_of_lines(lines_view(lines@)),
    {
        let mut auths: Vec<Auth> = Vec::new();
        let n = lines.len();
        let ghost all = lines_view(lines@);
        for i in 0..n
            invariant
                n == lines@.len(),
                all == lines_view(lines@),
                forall|k: int| 0 <= k < lines@.len() ==> #[trigger] line_loadable(lines@[k]@),
                auths_view(auths@) == auths_of_lines(all.take(i as int)),
        {
            proof {
                assert(all.take(i + 1).drop_last() =~= all.take(i as int));
                assert(all.take(i + 1).last() == lines@[i as int]@);
            }
            let line = &lines[i];
            assert(line_loadable(lines@[i as int]@));
            match Auth::from_line(line.as_str()) {
                Some(auth) => {
                    auths.push(auth);
                    assert(auths_view(auths@) =~= auths_of_lines(all.take(i as int)).push(auth@));
                },
                None => {},
            }
        }
        assert(all.take(n as int) =~= all);
        AuthStore { auths }
    }

    /// The number of credentials.
    pub fn len(&self) -> (r: usize)
        ensures
            r == self@.len(),
    {
        self.auths.len()
    }

    /// Whether the store holds no credential.
    pub fn is_empty(&self) -> (r: bool)
        ensures
            r == (self@.len() == 0),
    {
        self.auths.len() == 0
    }

    /// The credential at position `i`.
    pub fn get(&self, i: usize) -> (r: &Auth)
        requires
            i < self@.len(),
        ensures
            r@ == self@[i as int],
    {
        &self.auths[i]
    }

    /// The credentials, to be changed in place. The slice holds them in
    /// order, and what it holds in the end is what the store holds; a slice
    /// cannot grow or shrink, so the number of credentials stays.
    pub fn iter_mut(&mut self) -> (r: &mut [Auth])
        ensures
            auths_view(r@) == old(self)@,
            final(self)@ == auths_view(final(r)@),
    {
        self.auths.as_mut_slice()
    }

    /// Adds a credential at the end, and gives the text to append to the
    /// credentials file: its line and a newline.
    pub fn add(&mut self, platform: Platform, token: String) -> (appended: String)
        ensures
            final(self)@ == old(self)@.push((platform, token@)),
            appended@ == auth_line(platform, token@) + seq!['\n'],
    {
        let auth = Auth { platform, token: secure_string_from(token) };
        let mut appended = auth.to_string();
        appended.append("\n");
        proof {
            reveal_strlit("\n");
        }
        self.auths.push(auth);
        assert(auths_view(self.auths@) =~= old(self)@.push((platform, token@)));
        appended
    }

    /// Removes the credential at position `i`.
    pub fn remove(&mut self, i: usize)
        requires
            i < old(self)@.len(),
        ensures
            final(self)@ == old(self)@.remove(i as int),
    {
        let ghost before = self.auths@;
        self.auths.remove(i);
        assert(auths_view(self.auths@) =~= auths_view(before).remove(i as int));
    }
}

/// The text of the credentials file once its line `i` is taken out: the other
/// lines, in order, each ended by a newline.
pub fn file_after_removal(lines: &Vec<String>, i: usize) -> (text: String)
    requires
        i < lines@.len(),
    ensures
        text@ == file_text(lines_view(lines@).remove(i as int)),
{
    let ghost kept = lines_view(lines@).remove(i as int);
    let mut text = String::new();
    let n = lines.len();
    let mut k: usize = 0;
    proof {
        reveal_strlit("\n");
        assert(kept.take(0) =~= Seq::<Seq<char>>::empty());
    }
    while k < n
        invariant
            n == lines@.len(),
            i < n,
            k <= n,
            kept == lines_view(lines@).remove(i as int),
            text@ == file_text(kept.take(if k <= i { k as int } else { k - 1 })),
            "\n"@ == seq!['\n'],
        decreases n - k,
    {
        if k != i {
            let ghost m: int = if k < i { k as int } else { k - 1 };
            proof {
                assert(kept.take(m + 1).drop_last() =~= kept.take(m));
                assert(kept[m] == lines@[k as int]@);
            }
            text.append(lines[k].as_str());
            text.append("\n");
        }
        k = k + 1;
    }
    assert(kept.take(n - 1) =~= kept);
    text
}

/// The credentials file after `add`: its old text, then the new line and a
/// newline, is the file of the old lines and the new line.
pub proof fn lemma_file_text_push(lines: Seq<Seq<char>>, line: Seq<char>)
    ensures
        file_text(lines.push(line)) == file_text(lines) + line + seq!['\n'],
{
    assert(lines.push(line).drop_last() =~= lines);
}

/// Loading the credentials file after `add` wrote its line gives the store
/// that `add` left: the old credentials, then the added one.
pub proof fn lemma_reload_after_add(lines: Seq<Seq<char>>, p: Platform, token: Seq<char>)
    ensures
        auths_of_lines(lines.push(auth_line(p, token))) == auths_of_lines(lines).push((p, token)),
{
    lemma_auth_line_roundtrip(p, token);
    assert(lines.push(auth_line(p, token)).drop_last() =~= lines);
}

/// Where every line holds a credential, the store is the lines read one by one.
pub proof fn lemma_auths_of_parsed_lines(lines: Seq<Seq<char>>)
    requires
        forall|k: int| 0 <= k < lines.len() ==> (#[trigger] auth_of_line(lines[k])) is Some,
    ensures
        auths_of_lines(lines) == lines.map_values(|l: Seq<char>| auth_of_line(l).unwrap()),
    decreases lines.len(),
{
    if lines.len() > 0 {
        let front = lines.drop_last();
        assert forall|k: int| 0 <= k < front.len() implies (#[trigger] auth_of_line(front[k])) is Some by {
            assert(front[k] == lines[k]);
        }
        lemma_auths_of_parsed_lines(front);
        assert(auth_of_line(lines[lines.len() - 1]) is Some);
        assert(lines.map_values(|l: Seq<char>| auth_of_line(l).unwrap()) =~= front.map_values(
            |l: Seq<char>| auth_of_line(l).unwrap(),
        ).push(auth_of_line(lines.last()).unwrap()));
    }
}

/// Where every line of the credentials file holds a credential, loading the
/// file that `file_after_removal(lines, i)` wrote gives the store that
/// `remove(i)` left.
pub proof fn lemma_reload_after_remove(lines: Seq<Seq<char>>, i: int)
    requires
        0 <= i < lines.len(),
        forall|k: int| 0 <= k < lines.len() ==> (#[trigger] auth_of_line(lines[k])) is Some,
    ensures
        auths_of_lines(lines.remove(i)) == auths_of_lines(lines).remove(i),
{
    let rest = lines.remove(i);
    assert forall|k: int| 0 <= k < rest.len() implies (#[trigger] auth_of_line(rest[k])) is Some by {
        if k < i {
            assert(rest[k] == lines[k]);
        } else {
            assert(rest[k] == lines[k + 1]);
        }
    }
    lemma_auths_of_parsed_lines(lines);
    lemma_auths_of_parsed_lines(rest);
    assert(rest.map_values(|l: Seq<char>| auth_of_line(l).unwrap()) =~= lines.map_values(
        |l: Seq<char>| auth_of_line(l).unwrap(),
    ).remove(i));
}

/// A credential's line is the platform's name as written (`Discord` or
/// `Unkown`), a colon, and the token as it is.
pub proof fn lemma_auth_line_format(token: Seq<char>)
    ensures
        auth_line(Platform::Discord, token) == "Discord"@ + seq![':'] + token,
        auth_line(Platform::Unkown, token) == "Unkown"@ + seq![':'] + token,
        platform_of_name("Discord"@) == Some(Platform::Discord),
        platform_of_name("Unkown"@) == Some(Platform::Unkown),
{
    lemma_platform_name_roundtrip(Platform::Unkown);
}

/// A file's text is its lines in order, each followed by one newline.
pub proof fn lemma_file_text_lines(a: Seq<char>, b: Seq<char>)
    ensures
        file_text(Seq::empty()) == Seq::<char>::empty(),
        file_text(seq![a, b]) == a + seq!['\n'] + b + seq!['\n'],
{
    assert(seq![a, b].drop_last() =~= seq![a]);
    assert(seq![a].drop_last() =~= Seq::<Seq<char>>::empty());
    assert(file_text(seq![a].drop_last()) == Seq::<char>::empty());
    assert(file_text(seq![a]) =~= a + seq!['\n']);
    assert(file_text(seq![a, b]) =~= a + seq!['\n'] + b + seq!['\n']);
}

} // verus!
