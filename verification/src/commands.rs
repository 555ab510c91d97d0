//! The two closed command sets exchanged between the processes.
//!
//! The service sends a [`ProxyCommand`] to the proxy when the power source
//! changes; the proxy (or service) sends a [`NotificationCommand`] to the
//! notification provider to show a toast.  Both sets are closed: no other
//! message is ever valid on their channels.

use vstd::prelude::*;
use vstd::string::StringExecFns;
use vstd::string::StrSliceExecFns;

verus! {

/// Which of the two power profiles a [`ProxyCommand`] selects.
#[derive(Clone, Copy, Debug, PartialEq, Eq, Hash, Structural)]
pub enum PowerConfigSelection {
    Wired,
    Battery,
}

/// A command from the service to the proxy process.
#[derive(Clone, Copy, Debug, PartialEq, Eq, Hash, Structural)]
pub enum ProxyCommand {
    ChangePowerConfig(PowerConfigSelection),
}

/// A command to the notification provider.
///
/// Only the name `"display"` is acted upon; other names are accepted and
/// ignored, so that newer peers can send commands an older provider does
/// not know.  The content of a display command holds the toast title and
/// body separated by a newline.
#[derive(Debug)]
pub struct NotificationCommand {
    pub name: String,
    pub content: String,
}

impl NotificationCommand {
    /// Builds the display command for a toast with the given title and body.
    pub fn display(title: &str, body: &str) -> (r: NotificationCommand)
        ensures
            r.name@ == "display"@,
            r.content@ == title@ + "\n"@ + body@,
    {
        let name = String::from_str("display");
        let mut content = String::from_str(title);
        content.append("\n");
        content.append(body);
        NotificationCommand { name, content }
    }

    /// The one-line rendering of the command: its name, a newline, its content.
    pub fn to_text(&self) -> (r: String)
        ensures
            r@ == self.name@ + "\n"@ + self.content@,
    {
        let mut r = self.name.clone();
        r.append("\n");
        r.append(self.content.as_str());
        r
    }
}

/// Index of the first occurrence of `c` in `s`, or `s.len()` if `c` does
/// not occur.
pub open spec fn find_char(s: Seq<char>, c: char) -> int
    decreases s.len(),
{
    if s.len() == 0 {
        0
    } else if s[0] == c {
        0
    } else {
        1 + find_char(s.drop_first(), c)
    }
}

/// The characters of `s` before its first newline.
pub open spec fn spec_first_line(s: Seq<char>) -> Seq<char> {
    s.take(find_char(s, '\n'))
}

/// The characters of `s` between its first and second newline (or its end).
pub open spec fn spec_second_line(s: Seq<char>) -> Seq<char> {
    spec_first_line(s.skip(find_char(s, '\n') + 1))
}

/// A prefix free of `c` that ends at `c` or at the end of `s` pins down
/// `find_char`.
proof fn lemma_find_char_is(s: Seq<char>, c: char, i: int)
    requires
        0 <= i <= s.len(),
        forall|j: int| 0 <= j < i ==> s[j] != c,
        i < s.len() ==> s[i] == c,
    ensures
        find_char(s, c) == i,
    decreases s.len(),
{
    if s.len() != 0 && s[0] != c {
        assert forall|j: int| 0 <= j < i - 1 implies s.drop_first()[j] != c by {
            assert(s.drop_first()[j] == s[j + 1]);
        }
        assert(i - 1 < s.drop_first().len() ==> s.drop_first()[i - 1] == c);
        lemma_find_char_is(s.drop_first(), c, i - 1);
    }
}

/// Splits a display command's content into the toast title and body: the
/// first line and the second line.  Returns `None` when the content has no
/// newline at all (a malformed display command).
pub fn split_display_content(s: &str) -> (r: Option<(String, String)>)
    ensures
        match r {
            Some(p) => {
                &&& find_char(s@, '\n') < s@.len()
                &&& p.0@ == spec_first_line(s@)
                &&& p.1@ == spec_second_line(s@)
            },
            None => find_char(s@, '\n') == s@.len(),
        },
{
    let n = s.unicode_len();
    let i = match find_newline(s) {
        Some(i) => i,
        None => {
            return None;
        },
    };
    let title = s.substring_char(0, i);
    let rest = s.substring_char(i + 1, n);
    proof {
        assert(rest@ =~= s@.skip(i + 1));
    }
    let body = match find_newline(rest) {
        Some(j) => rest.substring_char(0, j),
        None => rest,
    };
    proof {
        assert(body@ =~= spec_second_line(s@));
    }
    Some((String::from_str(title), String::from_str(body)))
}

/// Index of the first newline of `s`, or `None` if it has none.
fn find_newline(s: &str) -> (r: Option<usize>)
    ensures
        match r {
            Some(i) => i == find_char(s@, '\n') && i < s@.len(),
            None => find_char(s@, '\n') == s@.len(),
        },
{
    let n = s.unicode_len();
    let mut i: usize = 0;
    while i < n
        invariant
            0 <= i <= n,
            n == s@.len(),
            forall|j: int| 0 <= j < i ==> s@[j] != '\n',
        decreases n - i,
    {
        if s.get_char(i) == '\n' {
            proof {
                lemma_find_char_is(s@, '\n', i as int);
            }
            return Some(i);
        }
        i = i + 1;
    }
    proof {
        lemma_find_char_is(s@, '\n', n as int);
    }
    None
}

} // verus!
