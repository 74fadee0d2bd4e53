//! The prompts entered so far, and the position from which the arrow keys
//! walk through them.

use crate::json::{json_of_string_list, json_string_list, parse_string_list, render_string_list};
use vstd::prelude::*;

verus! {

/// The earlier prompts, oldest first, and where the walk through them
/// stands: `None` at the fresh input line, `Some(i)` at prompt `i`.
#[derive(Debug)]
pub struct HistoryTracker {
    previous_prompts: Vec<String>,
    index: Option<usize>,
}

/// The mathematical value of a [`HistoryTracker`].
pub struct HistoryView {
    pub prompts: Seq<Seq<char>>,
    pub index: Option<nat>,
}

/// The position after one step towards older prompts, among `len > 0`
/// prompts.
pub open spec fn step_back(index: Option<nat>, len: nat) -> nat {
    match index {
        None => (len - 1) as nat,
        Some(i) => if i == 0 {
            0
        } else {
            (i - 1) as nat
        },
    }
}

/// The prompt at `index`, if there is one.
pub open spec fn prompt_at(prompts: Seq<Seq<char>>, index: nat) -> Option<Seq<char>> {
    if index < prompts.len() {
        Some(prompts[index as int])
    } else {
        None
    }
}

/// The prompts after `prompt` was entered: it is added unless it repeats the
/// last one.
pub open spec fn with_prompt(prompts: Seq<Seq<char>>, prompt: Seq<char>) -> Seq<Seq<char>> {
    if prompts.len() > 0 && prompts.last() == prompt {
        prompts
    } else {
        prompts.push(prompt)
    }
}

impl View for HistoryTracker {
    type V = HistoryView;

    closed spec fn view(&self) -> HistoryView {
        HistoryView {
            prompts: self.previous_prompts.deep_view(),
            index: match self.index {
                Some(i) => Some(i as nat),
                None => None,
            },
        }
    }
}

impl HistoryTracker {
    /// A tracker without prompts, at the fresh input line.
    pub fn new() -> (out: Self)
        ensures
            out@.prompts == Seq::<Seq<char>>::empty(),
            out@.index == None::<nat>,
    {
        let out = HistoryTracker { previous_prompts: Vec::new(), index: None };
        out
    }

    /// Replaces the prompts by those read from the history file; where none
    /// could be read, no prompts are left. The position stays.
    pub fn replace_prompts(&mut self, loaded: Option<Vec<String>>)
        ensures
            final(self)@.prompts == match loaded {
                Some(prompts) => prompts.deep_view(),
                None => Seq::empty(),
            },
            final(self)@.index == old(self)@.index,
    {
        match loaded {
            Some(prompts) => {
                self.previous_prompts = prompts;
            },
            None => {
                self.previous_prompts = Vec::new();
                proof {
                    assert(self.previous_prompts.deep_view() =~= Seq::<Seq<char>>::empty());
                }
            },
        }
    }

    /// Replaces the prompts by those that `content`, the text of the history
    /// file, holds as a JSON array of strings; any other text leaves no
    /// prompts. The position stays.
    pub fn load_history(&mut self, content: &str)
        ensures
            final(self)@.prompts == match json_string_list(content@) {
                Some(prompts) => prompts,
                None => Seq::empty(),
            },
            final(self)@.index == old(self)@.index,
    {
        self.replace_prompts(parse_string_list(content));
    }

    /// The text to store in the history file: the prompts as a JSON array of
    /// strings. `None` where they cannot be written, and then nothing is
    /// stored.
    pub fn save_history(&self) -> (out: Option<String>)
        ensures
            out.deep_view() == json_of_string_list(self@.prompts),
    {
        render_string_list(&self.previous_prompts)
    }

    /// Enters `prompt`. A prompt that repeats the last one changes nothing
    /// and gives `false`; any other is added at the end, the position goes
    /// back to the fresh input line, and the result is `true`: the history
    /// is then to be stored.
    pub fn add_prompt(&mut self, prompt: String) -> (added: bool)
        ensures
            final(self)@.prompts == with_prompt(old(self)@.prompts, prompt@),
            added == !(old(self)@.prompts.len() > 0 && old(self)@.prompts.last() == prompt@),
            added ==> final(self)@.index == None::<nat>,
            !added ==> final(self)@.index == old(self)@.index,
    {
        let len = self.previous_prompts.len();
        if len > 0 {
            if self.previous_prompts[len - 1] == prompt {
                return false;
            }
        }
        self.previous_prompts.push(prompt);
        self.index = None;
        true
    }

    /// Steps towards older prompts and gives the prompt reached. Without
    /// prompts there is nothing to reach and nothing changes. From the fresh
    /// input line the step leads to the newest prompt; at the oldest prompt
    /// it stays there.
    pub fn get_previous_prompt(&mut self) -> (out: Option<String>)
        ensures
            final(self)@.prompts == old(self)@.prompts,
            old(self)@.prompts.len() == 0 ==> out.is_none() && final(self)@.index == old(
                self,
            )@.index,
            old(self)@.prompts.len() > 0 ==> {
                let target = step_back(old(self)@.index, old(self)@.prompts.len());
                &&& final(self)@.index == Some(target)
                &&& out.deep_view() == prompt_at(old(self)@.prompts, target)
            },
    {
        let len = self.previous_prompts.len();
        if len == 0 {
            return None;
        }
        let target: usize = match self.index {
            None => len - 1,
            Some(i) => if i == 0 {
                0
            } else {
                i - 1
            },
        };
        self.index = Some(target);
        if target < len {
            Some(self.previous_prompts[target].clone())
        } else {
            None
        }
    }

    /// Steps towards newer prompts and gives the text for the input line.
    /// Without prompts there is none. At the fresh input line, and on the
    /// step past the newest prompt, the text is empty and the position is the
    /// fresh input line; otherwise it is the next prompt.
    pub fn get_next_prompt(&mut self) -> (out: Option<String>)
        ensures
            final(self)@.prompts == old(self)@.prompts,
            old(self)@.prompts.len() == 0 ==> out.is_none() && final(self)@.index == old(
                self,
            )@.index,
            old(self)@.prompts.len() > 0 ==> match old(self)@.index {
                None => final(self)@.index == None::<nat> && out.deep_view() == Some(
                    Seq::<char>::empty(),
                ),
                Some(i) => if i + 1 >= old(self)@.prompts.len() {
                    final(self)@.index == None::<nat> && out.deep_view() == Some(
                        Seq::<char>::empty(),
                    )
                } else {
                    final(self)@.index == Some((i + 1) as nat) && out.deep_view() == Some(
                        old(self)@.prompts[i as int + 1],
                    )
                },
            },
    {
        let len = self.previous_prompts.len();
        if len == 0 {
            return None;
        }
        match self.index {
            None => Some(String::new()),
            Some(i) => {
                if i >= len - 1 {
                    self.index = None;
                    Some(String::new())
                } else {
                    self.index = Some(i + 1);
                    Some(self.previous_prompts[i + 1].clone())
                }
            },
        }
    }

    /// The prompts, oldest first.
    pub fn prompts(&self) -> (out: &Vec<String>)
        ensures
            out.deep_view() == self@.prompts,
    {
        &self.previous_prompts
    }

    /// The position of the walk.
    pub fn position(&self) -> (out: Option<usize>)
        ensures
            out == match self@.index {
                Some(i) => Some(i as usize),
                None => None,
            },
            out matches Some(i) ==> self@.index == Some(i as nat),
    {
        self.index
    }
}

} // verus!
