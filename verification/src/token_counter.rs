//! Counters of the tokens that the chat-completion service reports.

use crate::chat::Usage;
use vstd::prelude::*;

verus! {

/// Two counters that only grow: the prompt tokens and the completion tokens
/// used so far. Each stops at `usize::MAX`.
#[derive(Debug)]
pub struct TokenCounter {
    prompt_tokens: usize,
    completion_tokens: usize,
}

/// `count` added to `total`, held at `usize::MAX`.
pub open spec fn accumulated(total: nat, count: nat) -> nat {
    if total + count > usize::MAX {
        usize::MAX as nat
    } else {
        total + count
    }
}

/// A token count of the service as a `usize`, held at `usize::MAX`.
pub open spec fn clamped(count: u64) -> nat {
    if count > usize::MAX {
        usize::MAX as nat
    } else {
        count as nat
    }
}

impl TokenCounter {
    /// The prompt tokens counted so far.
    pub closed spec fn prompt(&self) -> nat {
        self.prompt_tokens as nat
    }

    /// The completion tokens counted so far.
    pub closed spec fn completion(&self) -> nat {
        self.completion_tokens as nat
    }

    /// A counter that has counted nothing.
    pub fn new() -> (out: Self)
        ensures
            out.prompt() == 0,
            out.completion() == 0,
    {
        TokenCounter { prompt_tokens: 0, completion_tokens: 0 }
    }

    /// Adds `count` prompt tokens.
    pub fn increment_prompt(&mut self, count: usize)
        ensures
            final(self).prompt() == accumulated(old(self).prompt(), count as nat),
            final(self).completion() == old(self).completion(),
    {
        self.prompt_tokens = if count > usize::MAX - self.prompt_tokens {
            usize::MAX
        } else {
            self.prompt_tokens + count
        };
    }

    /// Adds `count` completion tokens.
    pub fn increment_completion(&mut self, count: usize)
        ensures
            final(self).completion() == accumulated(old(self).completion(), count as nat),
            final(self).prompt() == old(self).prompt(),
    {
        self.completion_tokens = if count > usize::MAX - self.completion_tokens {
            usize::MAX
        } else {
            self.completion_tokens + count
        };
    }

    /// The prompt tokens counted so far.
    pub fn current_prompt(&self) -> (out: usize)
        ensures
            out == self.prompt(),
    {
        self.prompt_tokens
    }

    /// The completion tokens counted so far.
    pub fn current_completion(&self) -> (out: usize)
        ensures
            out == self.completion(),
    {
        self.completion_tokens
    }

    /// Counts the usage that came with a response; a response without usage
    /// counts nothing.
    pub fn record_usage(&mut self, usage: &Option<Usage>)
        ensures
            final(self).prompt() == match usage {
                Some(u) => accumulated(old(self).prompt(), clamped(u.prompt_tokens)),
                None => old(self).prompt(),
            },
            final(self).completion() == match usage {
                Some(u) => accumulated(old(self).completion(), clamped(u.completion_tokens)),
                None => old(self).completion(),
            },
    {
        match usage {
            Some(u) => {
                self.increment_prompt(clamp(u.prompt_tokens));
                self.increment_completion(clamp(u.completion_tokens));
            },
            None => {},
        }
    }
}

/// A token count of the service as a `usize`, held at `usize::MAX`.
pub fn clamp(count: u64) -> (out: usize)
    ensures
        out == clamped(count),
{
    if count > usize::MAX as u64 {
        usize::MAX
    } else {
        count as usize
    }
}

/// A counter never goes down, and it grows by what is added as long as the
/// sum fits.
pub proof fn lemma_counter_monotonic(total: nat, count: nat)
    requires
        total <= usize::MAX,
    ensures
        accumulated(total, count) >= total,
        accumulated(total, count) <= usize::MAX,
        total + count <= usize::MAX ==> accumulated(total, count) == total + count,
{
}

} // verus!
