//! What the tool makes of Git: the text of a tag, the output of commands
//! and the variables of the Git configuration.

use crate::assoc::{assoc, find_last, lemma_assoc_absent, lemma_assoc_found};
use crate::errors::{CriticalError, UserError};
use crate::octets::extend;
use crate::text::{decimal, texts, to_decimal};
use crate::utils::{Tag, TagView, User};
use vstd::prelude::*;
use vstd::slice::slice_subrange;
use vstd::string::*;
use vstd::utf8::{decode_utf8, valid_utf8};

verus! {

/// The line feed.
pub const LF: u8 = 10;

/// The number sign, which opens a comment line.
pub const HASH: u8 = 35;

/// The text of the tag object that Git stores, without its signature:
/// the commit, the type, the name, the tagger with time and zone, a blank
/// line and the message.
pub open spec fn tag_string(t: TagView) -> Seq<char> {
    "object "@ + t.commit + "\ntype commit\ntag "@ + t.name + "\ntagger "@ + t.creator + " <"@
        + t.email + "> "@ + decimal(t.epoch as nat) + " "@ + t.timezone + "\n\n"@ + t.message
        + "\n"@
}

/// Writes the text of the tag object of `tag`, without its signature.
pub fn create_tag_string(tag: &Tag) -> (s: String)
    ensures
        s@ == tag_string(tag@),
{
    let mut s = String::from_str("object ");
    s.append(tag.commit.as_str());
    s.append("\ntype commit\ntag ");
    s.append(tag.name.as_str());
    s.append("\ntagger ");
    s.append(tag.creator.as_str());
    s.append(" <");
    s.append(tag.email.as_str());
    s.append("> ");
    s.append(to_decimal(tag.epoch).as_str());
    s.append(" ");
    s.append(tag.timezone.as_str());
    s.append("\n\n");
    s.append(tag.message.as_str());
    s.append("\n");
    s
}

/// Where `c` stands first in `text`; the length of `text` if it holds none.
pub open spec fn first_of(text: Seq<u8>, c: u8) -> int
    decreases text.len(),
{
    if text.len() == 0 || text[0] == c {
        0
    } else {
        1 + first_of(text.skip(1), c)
    }
}

/// The first `c` of a text stands within it, and nothing before it is `c`.
pub proof fn lemma_first_of(text: Seq<u8>, c: u8)
    ensures
        0 <= first_of(text, c) <= text.len(),
        first_of(text, c) < text.len() ==> text[first_of(text, c)] == c,
        forall|i: int| 0 <= i < first_of(text, c) ==> text[i] != c,
    decreases text.len(),
{
    if text.len() == 0 || text[0] == c {
    } else {
        lemma_first_of(text.skip(1), c);
        assert forall|i: int| 0 <= i < first_of(text, c) implies text[i] != c by {
            if i > 0 {
                assert(text[i] == text.skip(1)[i - 1]);
            }
        }
    }
}

/// Finds where `c` stands first in `text` from `from` on.
fn find_from(text: &[u8], from: usize, c: u8) -> (at: usize)
    requires
        from <= text@.len(),
    ensures
        at == from + first_of(text@.skip(from as int), c),
        from <= at <= text@.len(),
{
    let ghost rest = text@.skip(from as int);
    let mut n: usize = 0;
    proof {
        assert(rest.skip(0) =~= rest);
    }
    while from + n < text.len() && text[from + n] != c
        invariant
            from + n <= text.len(),
            rest == text@.skip(from as int),
            first_of(rest, c) == n + first_of(rest.skip(n as int), c),
        decreases text.len() - n,
    {
        proof {
            assert(rest.skip(n as int).skip(1) =~= rest.skip(n + 1));
            assert(rest.skip(n as int)[0] == text@[from + n]);
        }
        n = n + 1;
    }
    proof {
        if from + n < text.len() {
            assert(rest.skip(n as int)[0] == text@[from + n]);
        }
    }
    from + n
}

/// The lines of a text: what stands between its line feeds, without them.
/// A line feed at the very end opens no further line.
pub open spec fn lines(text: Seq<u8>) -> Seq<Seq<u8>>
    decreases text.len(),
{
    if text.len() == 0 {
        Seq::empty()
    } else {
        let n = first_of(text, LF);
        if n < 0 || n >= text.len() {
            seq![text]
        } else {
            seq![text.take(n)] + lines(text.skip(n + 1))
        }
    }
}

/// The views of a run of octet strings.
pub open spec fn octet_views(parts: Seq<Vec<u8>>) -> Seq<Seq<u8>> {
    parts.map_values(|p: Vec<u8>| p@)
}

/// Splits a text into its lines.
pub fn split_lines(text: &[u8]) -> (out: Vec<Vec<u8>>)
    ensures
        octet_views(out@) == lines(text@),
{
    let mut out: Vec<Vec<u8>> = Vec::new();
    let mut i: usize = 0;
    proof {
        assert(text@.skip(0) =~= text@);
        assert(octet_views(out@) =~= Seq::<Seq<u8>>::empty());
    }
    while i < text.len()
        invariant
            i <= text.len(),
            lines(text@) == octet_views(out@) + lines(text@.skip(i as int)),
        decreases text.len() - i,
    {
        let end = find_from(text, i, LF);
        let ghost rest = text@.skip(i as int);
        let ghost before = octet_views(out@);
        let mut line: Vec<u8> = Vec::new();
        extend(&mut line, slice_subrange(text, i, end));
        proof {
            lemma_first_of(rest, LF);
            assert(line@ =~= rest.take(end - i));
        }
        out.push(line);
        proof {
            assert(octet_views(out@) =~= before.push(rest.take(end - i)));
            if end < text.len() {
                assert(rest.skip(end - i + 1) =~= text@.skip(end + 1));
                assert(before + (seq![rest.take(end - i)] + lines(text@.skip(end + 1)))
                    =~= octet_views(out@) + lines(text@.skip(end + 1)));
            } else {
                assert(rest.take(end - i) =~= rest);
                assert(text@.skip(text@.len() as int) =~= Seq::<u8>::empty());
                assert(before + seq![rest] =~= octet_views(out@) + Seq::<Seq<u8>>::empty());
            }
        }
        if end < text.len() {
            i = end + 1;
        } else {
            i = end;
        }
    }
    proof {
        assert(text@.skip(text@.len() as int) =~= Seq::<u8>::empty());
        assert(octet_views(out@) + Seq::<Seq<u8>>::empty() =~= octet_views(out@));
    }
    out
}

/// The lines that open with no number sign, one after the other with
/// nothing between them.
pub open spec fn uncommented(ls: Seq<Seq<u8>>) -> Seq<u8>
    decreases ls.len(),
{
    if ls.len() == 0 {
        Seq::empty()
    } else if ls.last().len() > 0 && ls.last()[0] == HASH {
        uncommented(ls.drop_last())
    } else {
        uncommented(ls.drop_last()) + ls.last()
    }
}

/// Takes the comment lines out of what the user wrote in the editor.
pub fn strip_comments(text: &[u8]) -> (out: Vec<u8>)
    ensures
        out@ == uncommented(lines(text@)),
{
    let ls = split_lines(text);
    let ghost all = octet_views(ls@);
    let mut out: Vec<u8> = Vec::new();
    let mut i: usize = 0;
    while i < ls.len()
        invariant
            i <= ls.len(),
            all == octet_views(ls@),
            out@ == uncommented(all.take(i as int)),
        decreases ls.len() - i,
    {
        proof {
            assert(all.take(i + 1).drop_last() =~= all.take(i as int));
            assert(all.take(i + 1).last() == ls@[i as int]@);
        }
        let line = &ls[i];
        if !(line.len() > 0 && line[0] == HASH) {
            extend(&mut out, line.as_slice());
        }
        i = i + 1;
    }
    proof {
        assert(all.take(ls.len() as int) =~= all);
    }
    out
}

/// Calls `String::from_utf8` of std. Trusted: a string comes back exactly
/// for octets that are UTF-8, and it holds the text that they encode; for
/// others the error comes back in words.
#[verifier::external_body]
fn utf8_text(octets: &[u8]) -> (text: Result<String, String>)
    ensures
        match text {
            Ok(s) => valid_utf8(octets@) && s@ == decode_utf8(octets@),
            Err(_) => !valid_utf8(octets@),
        },
{
    match String::from_utf8(octets.to_vec()) {
        Ok(s) => Ok(s),
        Err(e) => Err(e.to_string()),
    }
}

/// What a command wrote, without the line feed that ends it.
pub open spec fn trimmed(output: Seq<u8>) -> Seq<u8> {
    if output.len() > 0 && output.last() == LF {
        output.drop_last()
    } else {
        output
    }
}

/// Reads the output of a command as text, without the line feed that ends
/// it. Fails for output that is no UTF-8.
pub fn parse_cmd_output(piped_output: &[u8]) -> (res: Result<String, CriticalError>)
    ensures
        match res {
            Ok(s) => valid_utf8(trimmed(piped_output@)) && s@ == decode_utf8(trimmed(piped_output@)),
            Err(e) => !valid_utf8(trimmed(piped_output@)) && e@ is Encoding,
        },
{
    let n = piped_output.len();
    let kept = if n > 0 && piped_output[n - 1] == LF {
        slice_subrange(piped_output, 0, n - 1)
    } else {
        piped_output
    };
    proof {
        assert(kept@ =~= trimmed(piped_output@));
    }
    match utf8_text(kept) {
        Ok(s) => Ok(s),
        Err(message) => Err(CriticalError::Encoding { message }),
    }
}

/// The tag message that the user wrote in the editor: what is left of the
/// text when its comment lines are taken out. Fails with `TagMessage` where
/// nothing is left.
pub fn tag_message_from_edit(edited: &str) -> (res: Result<String, CriticalError>)
    ensures
        match res {
            Ok(s) => {
                let left = uncommented(lines(edited.spec_bytes()));
                left.len() > 0 && valid_utf8(left) && s@ == decode_utf8(left)
            },
            Err(e) => {
                let left = uncommented(lines(edited.spec_bytes()));
                if left.len() == 0 {
                    e@ is User
                } else {
                    e@ is Encoding && !valid_utf8(left)
                }
            },
        },
{
    let left = strip_comments(edited.as_bytes());
    if left.len() == 0 {
        return Err(CriticalError::User(UserError::TagMessage));
    }
    match utf8_text(left.as_slice()) {
        Ok(s) => Ok(s),
        Err(message) => Err(CriticalError::Encoding { message }),
    }
}

/// The text that the editor opens with for the tag `tag`.
pub open spec fn tag_message_template(tag: Seq<char>) -> Seq<char> {
    "\n# Write a message for tag:\n#   "@ + tag
        + "\n# Lines starting with '#' will be ignored.\n# Note that this is a tag signed with a threshold signature\n# and might take some time to show up."@
}

/// Writes the text that the editor opens with for the tag `tag`.
pub fn format_tag_message_template(tag: &str) -> (s: String)
    ensures
        s@ == tag_message_template(tag@),
{
    let mut s = String::from_str("\n# Write a message for tag:\n#   ");
    s.append(tag);
    s.append(
        "\n# Lines starting with '#' will be ignored.\n# Note that this is a tag signed with a threshold signature\n# and might take some time to show up.",
    );
    s
}

/// The variable that a line `section.name=value` of `git config -l` sets:
/// its name, which stands between the first dot and the next dot or the
/// equals sign, and its value, which stands between the first equals sign
/// and the next or the end. `None` for a line without an equals sign or
/// without a dot before it.
pub open spec fn config_entry(line: Seq<u8>) -> Option<(Seq<u8>, Seq<u8>)> {
    let eq = first_of(line, 61);
    let left = line.take(eq);
    let dot = first_of(left, 46);
    if eq >= line.len() || dot >= left.len() {
        None
    } else {
        let after = left.skip(dot + 1);
        let right = line.skip(eq + 1);
        Some((after.take(first_of(after, 46)), right.take(first_of(right, 61))))
    }
}

/// Reads one line of `git config -l`.
pub fn parse_config_entry(line: &[u8]) -> (entry: Option<(Vec<u8>, Vec<u8>)>)
    ensures
        match entry {
            Some((name, value)) => config_entry(line@) == Some((name@, value@)),
            None => config_entry(line@) is None,
        },
{
    proof {
        assert(line@.skip(0) =~= line@);
    }
    let eq = find_from(line, 0, 61);
    if eq >= line.len() {
        return None;
    }
    let left = slice_subrange(line, 0, eq);
    proof {
        assert(left@ =~= line@.take(eq as int));
        assert(left@.skip(0) =~= left@);
    }
    let dot = find_from(left, 0, 46);
    if dot >= left.len() {
        return None;
    }
    let name_end = find_from(left, dot + 1, 46);
    let value_end = find_from(line, eq + 1, 61);
    let mut name: Vec<u8> = Vec::new();
    extend(&mut name, slice_subrange(left, dot + 1, name_end));
    let mut value: Vec<u8> = Vec::new();
    extend(&mut value, slice_subrange(line, eq + 1, value_end));
    proof {
        let after = left@.skip(dot + 1);
        let right = line@.skip(eq + 1);
        lemma_first_of(after, 46);
        lemma_first_of(right, 61);
        assert(name@ =~= after.take(first_of(after, 46)));
        assert(value@ =~= right.take(first_of(right, 61)));
    }
    Some((name, value))
}

/// The names and the values of the variables that the lines of
/// `git config -l` set, in the order of the lines. A line that sets no
/// variable, or whose name or value is no UTF-8, is passed over.
pub open spec fn config_vars(ls: Seq<Seq<u8>>) -> (Seq<Seq<char>>, Seq<Seq<char>>)
    decreases ls.len(),
{
    if ls.len() == 0 {
        (Seq::empty(), Seq::empty())
    } else {
        let (names, values) = config_vars(ls.drop_last());
        match config_entry(ls.last()) {
            Some((n, v)) => if valid_utf8(n) && valid_utf8(v) {
                (names.push(decode_utf8(n)), values.push(decode_utf8(v)))
            } else {
                (names, values)
            },
            None => (names, values),
        }
    }
}

/// The Git side of a repository: its variables and its paths.
pub struct GitEnv {
    pub names: Vec<String>,
    pub values: Vec<String>,
    pub git_dir: String,
    pub tag_msg_file: String,
    pub tag_path: String,
    pub tag_dir: String,
}

impl GitEnv {
    /// The variables: each name with the value that was set for it last.
    pub open spec fn git_config(&self) -> Map<Seq<char>, Seq<char>> {
        assoc(texts(self.names@), texts(self.values@))
    }

    /// Whether each name has its value.
    pub open spec fn wf(&self) -> bool {
        self.names@.len() == self.values@.len()
    }

    /// The Git side of the repository at `git_dir`, with the variables that
    /// `config`, the output of `git config -l`, sets. Lines that set no
    /// variable, or that are no UTF-8, are passed over.
    pub fn new(git_dir: String, config: &[u8]) -> (env: GitEnv)
        ensures
            env.wf(),
            env.git_dir == git_dir,
            env.tag_msg_file@ == ".git/TAG_EDITMSG"@,
            env.tag_path@ == ".git/refs/tags"@,
            env.tag_dir@ == git_dir@ + "/"@ + ".git/refs/tags"@,
            texts(env.names@) == config_vars(lines(config@)).0,
            texts(env.values@) == config_vars(lines(config@)).1,
    {
        let ls = split_lines(config);
        let ghost all = octet_views(ls@);
        let mut names: Vec<String> = Vec::new();
        let mut values: Vec<String> = Vec::new();
        let mut i: usize = 0;
        proof {
            assert(texts(names@) =~= config_vars(all.take(0)).0);
            assert(texts(values@) =~= config_vars(all.take(0)).1);
        }
        while i < ls.len()
            invariant
                i <= ls.len(),
                all == octet_views(ls@),
                names@.len() == values@.len(),
                texts(names@) == config_vars(all.take(i as int)).0,
                texts(values@) == config_vars(all.take(i as int)).1,
            decreases ls.len() - i,
        {
            proof {
                assert(all.take(i + 1).drop_last() =~= all.take(i as int));
                assert(all.take(i + 1).last() == ls@[i as int]@);
            }
            match parse_config_entry(ls[i].as_slice()) {
                Some((name, value)) => {
                    match utf8_text(name.as_slice()) {
                        Ok(n) => match utf8_text(value.as_slice()) {
                            Ok(v) => {
                                let ghost old_names = texts(names@);
                                let ghost old_values = texts(values@);
                                names.push(n);
                                values.push(v);
                                proof {
                                    assert(texts(names@) =~= old_names.push(n@));
                                    assert(texts(values@) =~= old_values.push(v@));
                                }
                            },
                            Err(_) => {},
                        },
                        Err(_) => {},
                    }
                },
                None => {},
            }
            i = i + 1;
        }
        proof {
            assert(all.take(ls.len() as int) =~= all);
        }
        let mut tag_dir = git_dir.clone();
        tag_dir.append("/");
        tag_dir.append(".git/refs/tags");
        GitEnv {
            names,
            values,
            git_dir,
            tag_msg_file: String::from_str(".git/TAG_EDITMSG"),
            tag_path: String::from_str(".git/refs/tags"),
            tag_dir,
        }
    }

    /// The value of the variable `name`.
    pub fn get(&self, name: &String) -> (value: Option<String>)
        requires
            self.wf(),
        ensures
            match value {
                Some(v) => self.git_config().contains_key(name@) && v@ == self.git_config()[name@],
                None => !self.git_config().contains_key(name@),
            },
    {
        match find_last(&self.names, name) {
            Some(i) => {
                proof {
                    lemma_assoc_found(texts(self.names@), texts(self.values@), name@, i as int);
                }
                Some(self.values[i].clone())
            },
            None => {
                proof {
                    lemma_assoc_absent(texts(self.names@), texts(self.values@), name@);
                }
                None
            },
        }
    }
}

/// Who tags: the user of the configuration where it names one, else the
/// `name` and `email` of the Git configuration, each empty where Git has
/// none.
pub fn get_user(configured: &Option<User>, env: &GitEnv) -> (user: User)
    requires
        env.wf(),
    ensures
        match configured {
            Some(u) => user.username@ == u.username@ && user.email@ == u.email@,
            None => user.username@ == (if env.git_config().contains_key("name"@) {
                env.git_config()["name"@]
            } else {
                Seq::empty()
            }) && user.email@ == (if env.git_config().contains_key("email"@) {
                env.git_config()["email"@]
            } else {
                Seq::empty()
            }),
        },
{
    match configured {
        Some(u) => User { username: u.username.clone(), email: u.email.clone() },
        None => {
            let username = match env.get(&String::from_str("name")) {
                Some(name) => name,
                None => String::new(),
            };
            let email = match env.get(&String::from_str("email")) {
                Some(email) => email,
                None => String::new(),
            };
            User { username, email }
        },
    }
}

} // verus!
