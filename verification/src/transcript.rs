//! Verbose transcript of workflow steps, as lines to print.

use crate::text::{chars_of, join2, join3, views};
use vstd::prelude::*;

verus! {

/// A transcript that is on or off, and knows whether it has begun.
#[derive(Debug, Clone, Copy, PartialEq, Eq, Structural)]
pub struct Transcript {
    pub enabled: bool,
    pub started: bool,
}

/// The heading that begins a transcript, until it has been given.
pub open spec fn heading(started: bool) -> Seq<Seq<char>> {
    if started {
        seq![]
    } else {
        seq!["transcript:"@]
    }
}

/// The lines of a note: the heading where it is due, then the note.
pub open spec fn note_lines(t: Transcript, message: Seq<char>) -> Seq<Seq<char>> {
    if t.enabled {
        heading(t.started) + seq!["- "@ + message]
    } else {
        seq![]
    }
}

/// The lines of a block: the heading where it is due, then the content
/// between a line that opens and a line that ends the block.
pub open spec fn block_lines(t: Transcript, title: Seq<char>, content: Seq<char>) -> Seq<Seq<char>> {
    if t.enabled {
        heading(t.started) + seq![
            "--- "@ + title + " ---"@,
            content,
            "--- end "@ + title + " ---"@,
        ]
    } else {
        seq![]
    }
}

impl Transcript {
    pub fn new(enabled: bool) -> (t: Transcript)
        ensures
            t.enabled == enabled,
            !t.started,
    {
        Transcript { enabled, started: false }
    }

    fn start(&mut self, lines: &mut Vec<String>)
        ensures
            final(self).enabled == old(self).enabled,
            final(self).started,
            views(final(lines)@) == views(old(lines)@) + heading(old(self).started),
    {
        if !self.started {
            self.started = true;
            lines.push("transcript:".to_owned());
        }
        assert(views(lines@) =~= views(old(lines)@) + heading(old(self).started));
    }

    /// Takes a note; gives the lines to print.
    pub fn note(&mut self, message: &str) -> (lines: Vec<String>)
        ensures
            views(lines@) == note_lines(*old(self), message@),
            final(self).enabled == old(self).enabled,
            final(self).started == (old(self).started || old(self).enabled),
    {
        let mut lines: Vec<String> = Vec::new();
        if !self.enabled {
            assert(views(lines@) =~= seq![]);
            return lines;
        }
        self.start(&mut lines);
        let chars = chars_of(message);
        lines.push(join2("- ", chars.as_slice()));
        assert(views(lines@) =~= note_lines(*old(self), message@));
        lines
    }

    /// Takes a block of text under a title; gives the lines to print.
    pub fn block(&mut self, title: &str, content: &str) -> (lines: Vec<String>)
        ensures
            views(lines@) == block_lines(*old(self), title@, content@),
            final(self).enabled == old(self).enabled,
            final(self).started == (old(self).started || old(self).enabled),
    {
        let mut lines: Vec<String> = Vec::new();
        if !self.enabled {
            assert(views(lines@) =~= seq![]);
            return lines;
        }
        self.start(&mut lines);
        let chars = chars_of(title);
        lines.push(join3("--- ", chars.as_slice(), " ---"));
        lines.push(content.to_owned());
        lines.push(join3("--- end ", chars.as_slice(), " ---"));
        assert(views(lines@) =~= block_lines(*old(self), title@, content@));
        lines
    }
}

} // verus!
