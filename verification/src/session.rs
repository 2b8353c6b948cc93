use vstd::prelude::*;
use vstd::string::StringExecFns;

verus! {

/// The text with every match of a pattern replaced: matches are taken
/// from the left, and the search goes on behind each match, so that
/// matches do not overlap. An empty pattern replaces nothing here.
pub open spec fn replaced(text: Seq<char>, from: Seq<char>, to: Seq<char>) -> Seq<char>
    decreases text.len(),
{
    if from.len() == 0 || text.len() < from.len() {
        text
    } else if text.subrange(0, from.len() as int) == from {
        to + replaced(text.subrange(from.len() as int, text.len() as int), from, to)
    } else {
        text.subrange(0, 1) + replaced(text.subrange(1, text.len() as int), from, to)
    }
}

/// The JSON text that `serde_json::to_string` writes for a string.
pub uninterp spec fn json_encoded(text: Seq<char>) -> Seq<char>;

/// The string that `serde_json::from_str` reads from a JSON text, if the
/// text is one JSON string.
pub uninterp spec fn json_decoded(text: Seq<char>) -> Option<Seq<char>>;

/// Whether the pattern stands somewhere in the text.
pub open spec fn occurs(text: Seq<char>, pattern: Seq<char>) -> bool {
    exists|i: int|
        0 <= i && i + pattern.len() <= text.len() && #[trigger] text.subrange(
            i,
            i + pattern.len(),
        ) == pattern
}

/// Calls `str::replace` with a string pattern that is not empty: every
/// match of the pattern, found from the left and without overlap, is
/// replaced.
#[verifier::external_body]
fn replace(text: &str, from: &str, to: &str) -> (out: String)
    requires
        from@.len() > 0,
    ensures
        out@ == replaced(text@, from@, to@),
{
    text.replace(from, to)
}

/// Calls `serde_json::to_string` on a string. Writing a string as JSON
/// into memory cannot fail, so there is always a result; it is named, not
/// described.
#[verifier::external_body]
fn json_encode(text: &str) -> (out: Option<String>)
    ensures
        out is Some,
        out->0@ == json_encoded(text@),
{
    serde_json::to_string(text).ok()
}

/// Calls `serde_json::from_str` for a string and drops the error, if any.
/// The result is named, not described.
#[verifier::external_body]
fn json_decode(text: &str) -> (out: Option<String>)
    ensures
        match out {
            Some(value) => json_decoded(text@) == Some(value@),
            None => json_decoded(text@) is None,
        },
{
    serde_json::from_str::<String>(text).ok()
}

/// The stand-in that holds the place of backslashes while slashes are
/// turned into backslashes.
pub const PLACEHOLDER: &'static str = "THISWASABACKSLASH";

/// The keys that were released over a session's window in one frame, and
/// whether the window was asked to close.
#[derive(Clone, Copy, Debug, PartialEq, Eq, Structural)]
pub struct Keys {
    pub close_requested: bool,
    pub escape: bool,
    pub enter: bool,
    pub d: bool,
    pub s: bool,
    pub a: bool,
}

/// What the application is to do for a session after a frame.
#[derive(Clone, Debug, PartialEq, Eq)]
pub struct Frame {
    /// Text to put on the clipboard.
    pub copy: Option<String>,
    /// Whether to bring the session's window to the front.
    pub focus: bool,
    /// Whether to close the session.
    pub closing: bool,
}

/// A piece of captured clipboard text, open for editing in a window of its
/// own.
#[derive(Clone, Debug, PartialEq, Eq)]
pub struct Session {
    pub captured_clipboard: String,
    /// The session's number: its place in the list of sessions.
    pub index: usize,
    /// Whether the window still has to be brought to the front.
    pub requested_focus: bool,
}

/// The application's form state and its open sessions. A closed session
/// leaves its place empty, so that every session keeps its number.
pub struct MyApp {
    pub name: String,
    pub age: u32,
    pub sessions: Vec<Option<Session>>,
}

/// Slashes and backslashes exchanged, by three replacements: backslashes
/// to the placeholder, slashes to backslashes, the placeholder to slashes.
pub open spec fn slashes_reversed(text: Seq<char>) -> Seq<char> {
    replaced(replaced(replaced(text, "\\"@, PLACEHOLDER@), "/"@, "\\"@), PLACEHOLDER@, "/"@)
}

/// The text written as a JSON string.
pub open spec fn serialized(text: Seq<char>) -> Seq<char> {
    json_encoded(text)
}

/// The texts joined into one, with a comma between each two.
pub open spec fn comma_joined(names: Seq<Seq<char>>) -> Seq<char>
    decreases names.len(),
{
    if names.len() == 0 {
        Seq::empty()
    } else if names.len() == 1 {
        names[0]
    } else {
        comma_joined(names.drop_last()) + seq![','] + names.last()
    }
}

/// The texts that a list of strings holds.
pub open spec fn texts(names: Seq<String>) -> Seq<Seq<char>> {
    Seq::new(names.len(), |i: int| names[i]@)
}

/// The string that the text holds as JSON; unchanged if it is no JSON
/// string.
pub open spec fn deserialized(text: Seq<char>) -> Seq<char> {
    match json_decoded(text) {
        Some(value) => value,
        None => text,
    }
}

/// The text after a frame's keys: D reverses the slashes, then S writes
/// the text as JSON, then A reads it as JSON.
pub open spec fn edited(text: Seq<char>, keys: Keys) -> Seq<char> {
    let reversed = if keys.d {
        slashes_reversed(text)
    } else {
        text
    };
    let written = if keys.s {
        serialized(reversed)
    } else {
        reversed
    };
    if keys.a {
        deserialized(written)
    } else {
        written
    }
}

/// Exchanges slashes and backslashes. A text that holds neither, nor the
/// placeholder, comes back as it is.
pub fn reverse_slashes(text: &str) -> (out: String)
    ensures
        out@ == slashes_reversed(text@),
        !occurs(text@, "\\"@) && !occurs(text@, "/"@) && !occurs(text@, PLACEHOLDER@) ==> out@
            == text@,
{
    proof {
        reveal_strlit("\\");
        reveal_strlit("/");
        reveal_strlit("THISWASABACKSLASH");
        if !occurs(text@, "\\"@) && !occurs(text@, "/"@) && !occurs(text@, PLACEHOLDER@) {
            lemma_replaced_without_match(text@, "\\"@, PLACEHOLDER@);
            lemma_replaced_without_match(text@, "/"@, "\\"@);
            lemma_replaced_without_match(text@, PLACEHOLDER@, "/"@);
        }
    }
    let held = replace(text, "\\", PLACEHOLDER);
    let turned = replace(held.as_str(), "/", "\\");
    replace(turned.as_str(), PLACEHOLDER, "/")
}

/// Joins file names into one text, with a comma between each two.
pub fn joined(names: &Vec<String>) -> (out: String)
    ensures
        out@ == comma_joined(texts(names@)),
{
    let mut out = String::new();
    let mut i: usize = 0;
    while i < names.len()
        invariant
            i <= names.len(),
            out@ == comma_joined(texts(names@).subrange(0, i as int)),
        decreases names.len() - i,
    {
        let ghost before = texts(names@).subrange(0, i as int);
        let ghost after = texts(names@).subrange(0, i + 1);
        proof {
            reveal_strlit(",");
            assert(after.drop_last() =~= before);
            assert(after.last() == names@[i as int]@);
        }
        if i > 0 {
            out.append(",");
            assert(","@ =~= seq![',']);
        }
        out.append(names[i].as_str());
        assert(out@ =~= comma_joined(after));
        i = i + 1;
    }
    assert(texts(names@).subrange(0, i as int) =~= texts(names@));
    out
}

/// A text in which the pattern does not occur is left as it is.
pub proof fn lemma_replaced_without_match(text: Seq<char>, from: Seq<char>, to: Seq<char>)
    requires
        !occurs(text, from),
    ensures
        replaced(text, from, to) == text,
    decreases text.len(),
{
    if from.len() == 0 || text.len() < from.len() {
    } else {
        let rest = text.subrange(1, text.len() as int);
        assert(text.subrange(0int, 0int + from.len()) != from);
        if occurs(rest, from) {
            let i = choose|i: int|
                0 <= i && i + from.len() <= rest.len() && #[trigger] rest.subrange(i, i + from.len())
                    == from;
            let j = i + 1;
            assert(text.subrange(j, j + from.len()) =~= rest.subrange(i, i + from.len()));
        }
        lemma_replaced_without_match(rest, from, to);
        assert(text.subrange(0, 1) + rest =~= text);
    }
}

/// The text that takes the place of `text` when it is written as JSON,
/// given what the writer returned: its output, or the text as it was.
pub fn after_encoding(text: String, encoded: Option<String>) -> (out: String)
    ensures
        out@ == (match encoded {
            Some(json) => json@,
            None => text@,
        }),
{
    match encoded {
        Some(json) => json,
        None => text,
    }
}

/// The text that takes the place of `text` when it is read as JSON, given
/// what the reader returned: the string it read, or the text as it was.
pub fn after_decoding(text: String, decoded: Option<String>) -> (out: String)
    ensures
        out@ == (match decoded {
            Some(value) => value@,
            None => text@,
        }),
{
    match decoded {
        Some(value) => value,
        None => text,
    }
}

/// Writes the text as a JSON string.
pub fn serialize(text: String) -> (out: String)
    ensures
        out@ == serialized(text@),
{
    let encoded = json_encode(text.as_str());
    after_encoding(text, encoded)
}

/// Reads the text as a JSON string.
pub fn deserialize(text: String) -> (out: String)
    ensures
        out@ == deserialized(text@),
{
    let decoded = json_decode(text.as_str());
    after_decoding(text, decoded)
}

impl Session {
    /// A session on freshly captured text: it asks for the focus once.
    pub fn new(captured_clipboard: String, index: usize) -> (session: Session)
        ensures
            session.captured_clipboard@ == captured_clipboard@,
            session.index == index,
            session.requested_focus,
    {
        Session { captured_clipboard, index, requested_focus: true }
    }

    /// Applies one frame's keys to the session.
    ///
    /// Escape, Enter and a close request close the session. Enter also
    /// copies the text as it stood before this frame's edits. The focus is
    /// asked for once, in the first frame.
    pub fn frame(&mut self, keys: Keys) -> (frame: Frame)
        ensures
            frame.closing == (keys.close_requested || keys.escape || keys.enter),
            frame.focus == old(self).requested_focus,
            keys.enter ==> frame.copy is Some && frame.copy->0@ == old(self).captured_clipboard@,
            !keys.enter ==> frame.copy is None,
            final(self).captured_clipboard@ == edited(old(self).captured_clipboard@, keys),
            final(self).index == old(self).index,
            !final(self).requested_focus,
    {
        let closing = keys.close_requested || keys.escape || keys.enter;
        let copy = if keys.enter {
            Some(self.captured_clipboard.clone())
        } else {
            None
        };
        let mut text = self.captured_clipboard.clone();
        if keys.d {
            text = reverse_slashes(text.as_str());
        }
        if keys.s {
            text = serialize(text);
        }
        if keys.a {
            text = deserialize(text);
        }
        let focus = self.requested_focus;
        self.captured_clipboard = text;
        self.requested_focus = false;
        Frame { copy, focus, closing }
    }
}

impl Default for MyApp {
    /// The form as it first shows: Arthur, aged 42, with no sessions.
    fn default() -> (app: MyApp)
        ensures
            app.name@ == "Arthur"@,
            app.age == 42,
            app.sessions@.len() == 0,
    {
        MyApp { name: String::from_str("Arthur"), age: 42, sessions: Vec::new() }
    }
}

impl MyApp {
    /// The sessions as a sequence of places, each empty or holding a text,
    /// a number and the focus mark.
    pub open spec fn places(self) -> Seq<Option<(Seq<char>, usize, bool)>> {
        Seq::new(
            self.sessions@.len(),
            |i: int|
                match self.sessions@[i] {
                    Some(session) => Some(
                        (session.captured_clipboard@, session.index, session.requested_focus),
                    ),
                    None => None,
                },
        )
    }

    /// An application with the given form state and no sessions.
    pub fn new(name: String, age: u32) -> (app: MyApp)
        ensures
            app.name@ == name@,
            app.age == age,
            app.sessions@.len() == 0,
    {
        MyApp { name, age, sessions: Vec::new() }
    }

    /// Opens a session on what was captured from the clipboard, if
    /// anything was: the new session takes the next place, carries that
    /// place as its number and asks for the focus. With nothing captured
    /// the sessions stay as they are.
    pub fn new_session(&mut self, captured: Option<String>)
        ensures
            final(self).name == old(self).name,
            final(self).age == old(self).age,
            match captured {
                Some(text) => final(self).places() == old(self).places().push(
                    Some((text@, old(self).sessions@.len() as usize, true)),
                ),
                None => final(self).places() == old(self).places(),
            },
    {
        match captured {
            Some(text) => {
                let index = self.sessions.len();
                let session = Session::new(text, index);
                self.sessions.push(Some(session));
                assert(self.places() =~= old(self).places().push(
                    Some((text@, old(self).sessions@.len() as usize, true)),
                ));
            },
            None => {},
        }
    }

    /// Closes the session at a place, leaving the place empty. Places past
    /// the end do not exist and nothing happens.
    pub fn close_session(&mut self, place: usize)
        ensures
            final(self).name == old(self).name,
            final(self).age == old(self).age,
            place < old(self).sessions@.len() ==> final(self).places() == old(self).places().update(
                place as int,
                None,
            ),
            place >= old(self).sessions@.len() ==> final(self).places() == old(self).places(),
    {
        if place < self.sessions.len() {
            self.sessions.set(place, None);
            assert(self.places() =~= old(self).places().update(place as int, None));
        }
    }

    /// One more year: the form's button. The age stops at the largest
    /// number it can hold.
    pub fn click_each_year(&mut self)
        ensures
            final(self).name == old(self).name,
            final(self).sessions == old(self).sessions,
            final(self).age == (if old(self).age < u32::MAX {
                (old(self).age + 1) as u32
            } else {
                u32::MAX
            }),
    {
        if self.age < u32::MAX {
            self.age = self.age + 1;
        }
    }
}

} // verus!
