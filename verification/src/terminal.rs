//! State of the terminal pane: the line being typed and a scrollback of
//! displayed lines, capped so that once it is full, registering a line
//! drops the oldest one.

use vstd::prelude::*;
use vstd::string::{StrSliceExecFns, StringExecFns};

verus! {

/// What the pane reacts to: edits of the input line, and its submission.
#[derive(Debug)]
pub enum TerminalPaneMessage {
    InputChanged(String),
    InputSubmit,
}

/// The scrollback text with its first line removed, through the first
/// newline.
pub open spec fn drop_first_line(s: Seq<char>) -> Seq<char>
    recommends
        s.contains('\n'),
{
    s.subrange(s.index_of_first('\n')->0 + 1, s.len() as int)
}

/// How registering a line changes the scrollback: an empty input is
/// ignored; while fewer than the cap of lines are shown the line and a
/// newline are appended; at the cap the oldest line is dropped first.
pub open spec fn reg_data_spec(
    display: Seq<char>,
    lines: u32,
    chars: u32,
    data: Seq<char>,
) -> (Seq<char>, u32) {
    if chars == 0 {
        (display, lines)
    } else if lines <= 30 {
        (display + data + seq!['\n'], (lines + 1) as u32)
    } else {
        (drop_first_line(display) + data + seq!['\n'], lines)
    }
}

/// State of the terminal pane.
#[derive(Debug)]
pub struct TerminalPane {
    pub input_value: String,
    pub display_value: String,
    pub line_num: u32,
    pub char_num: u32,
}

impl TerminalPane {
    /// How many lines the scrollback counts, saturated at one past the
    /// cap.
    pub open spec fn lines(&self) -> u32 {
        self.line_num
    }

    /// The character count of the current input line.
    pub open spec fn chars(&self) -> u32 {
        self.char_num
    }

    /// Once the scrollback is past the cap it holds at least one
    /// newline, so there is always an oldest line to drop.
    pub open spec fn wf(&self) -> bool {
        self.lines() > 30 ==> self.display_value@.contains('\n')
    }

    /// Append `new_data` to the scrollback as one line, dropping the
    /// oldest line once the cap is reached. An empty input is ignored.
    pub fn reg_data(&mut self, new_data: &String)
        requires
            old(self).wf(),
        ensures
            final(self).wf(),
            final(self).input_value@ == old(self).input_value@,
            final(self).chars() == old(self).chars(),
            ({
                let (d, l) = reg_data_spec(
                    old(self).display_value@,
                    old(self).lines(),
                    old(self).chars(),
                    new_data@,
                );
                final(self).display_value@ == d && final(self).lines() == l
            }),
    {
        match self.char_num {
            0 => {
                return ;
            },
            _ => {},
        }
        if self.line_num <= 30 {
            self.display_value.append(new_data.as_str());
            self.display_value.append("\n");
            self.line_num = self.line_num + 1;
            proof {
                reveal_strlit("\n");
                assert("\n"@ =~= seq!['\n']);
                assert(self.display_value@ =~= old(self).display_value@ + new_data@
                    + seq!['\n']);
                assert(self.display_value@[self.display_value@.len() - 1] == '\n');
                assert(self.display_value@.contains('\n'));
            }
        } else {
            let n = self.display_value.as_str().unicode_len();
            let mut i: usize = 0;
            while i < n && self.display_value.as_str().get_char(i) != '\n'
                invariant
                    i <= n,
                    n == self.display_value@.len(),
                    self.display_value@ == old(self).display_value@,
                    forall|j: int| 0 <= j < i ==> self.display_value@[j] != '\n',
                decreases n - i,
            {
                i = i + 1;
            }
            proof {
                old(self).display_value@.index_of_first_ensures('\n');
                if i >= n {
                    let k = choose|k: int|
                        0 <= k < old(self).display_value@.len() && old(self).display_value@[k]
                            == '\n';
                    assert(old(self).display_value@[k] != '\n');
                }
                assert(i < n);
                assert(old(self).display_value@.index_of_first('\n')->0 == i);
            }
            let rest = self.display_value.as_str().substring_char(i + 1, n);
            let trimmed = rest.to_owned();
            self.display_value = trimmed;
            self.display_value.append(new_data.as_str());
            self.display_value.append("\n");
            proof {
                reveal_strlit("\n");
                assert("\n"@ =~= seq!['\n']);
                assert(self.display_value@ =~= drop_first_line(old(self).display_value@)
                    + new_data@ + seq!['\n']);
                assert(self.display_value@[self.display_value@.len() - 1] == '\n');
                assert(self.display_value@.contains('\n'));
            }
        }
    }

    /// React to a message: an edit replaces the input line and its
    /// character count; a submission registers the input line in the
    /// scrollback and clears it.
    pub fn update(&mut self, message: TerminalPaneMessage)
        requires
            old(self).wf(),
            message matches TerminalPaneMessage::InputChanged(v) ==> v@.len() <= u32::MAX,
        ensures
            final(self).wf(),
            (message matches TerminalPaneMessage::InputChanged(v) ==> final(self).input_value@
                == v@ && final(self).chars() == v@.len() && final(self).display_value@ == old(
                self,
            ).display_value@ && final(self).lines() == old(self).lines()),
            message is InputSubmit ==> ({
                let (d, l) = reg_data_spec(
                    old(self).display_value@,
                    old(self).lines(),
                    old(self).chars(),
                    old(self).input_value@,
                );
                &&& final(self).display_value@ == d
                &&& final(self).lines() == l
                &&& final(self).input_value@ == Seq::<char>::empty()
                &&& final(self).chars() == 0
            }),
    {
        match message {
            TerminalPaneMessage::InputChanged(value) => {
                self.input_value = value;
                let n = self.input_value.as_str().unicode_len();
                self.char_num = n as u32;
            },
            TerminalPaneMessage::InputSubmit => {
                let data = self.input_value.clone();
                self.reg_data(&data);
                self.input_value = String::new();
                self.char_num = 0;
            },
        }
    }
}

impl Default for TerminalPane {
    /// A fresh pane: empty input, empty scrollback.
    fn default() -> (p: Self)
        ensures
            p.wf(),
            p.input_value@ == Seq::<char>::empty(),
            p.display_value@ == Seq::<char>::empty(),
            p.lines() == 0,
            p.chars() == 0,
    {
        TerminalPane {
            input_value: String::new(),
            display_value: String::new(),
            line_num: 0,
            char_num: 0,
        }
    }
}

} // verus!
