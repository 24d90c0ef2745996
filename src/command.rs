//! Command messages: the ordered text frames sent to a worker, the first of
//! which names the verb.

use vstd::prelude::*;
use crate::events::{token_of, ZMonitorEvents};

verus! {

/// A multi-frame command message, built fresh for each call.
#[derive(Debug)]
pub struct Command {
    pub frames: Vec<String>,
}

impl View for Command {
    type V = Seq<Seq<char>>;

    open spec fn view(&self) -> Seq<Seq<char>> {
        self.frames@.map_values(|f: String| f@)
    }
}

/// The wire tokens of a list of categories, in the order given.
pub open spec fn tokens_of(attrs: Seq<ZMonitorEvents>) -> Seq<Seq<char>> {
    attrs.map_values(|e: ZMonitorEvents| token_of(e))
}

/// The argument of a CURVE command: the directory, or `*` for any key.
pub open spec fn curve_location(location: Option<&str>) -> Seq<char> {
    match location {
        Some(dir) => dir@,
        None => "*"@,
    }
}

impl Command {
    /// A command with the verb alone.
    pub fn verb(verb: &str) -> (r: Command)
        ensures
            r@ == seq![verb@],
    {
        let mut frames: Vec<String> = Vec::new();
        frames.push(String::from_str(verb));
        let r = Command { frames };
        assert(r@ =~= seq![verb@]);
        r
    }

    /// A command with a verb and one argument frame.
    pub fn with_arg(verb: &str, arg: &str) -> (r: Command)
        ensures
            r@ == seq![verb@, arg@],
    {
        let mut frames: Vec<String> = Vec::new();
        frames.push(String::from_str(verb));
        frames.push(String::from_str(arg));
        let r = Command { frames };
        assert(r@ =~= seq![verb@, arg@]);
        r
    }

    /// Adds a frame after the existing ones.
    pub fn add_frame(&mut self, frame: &str)
        ensures
            final(self)@ == old(self)@.push(frame@),
    {
        self.frames.push(String::from_str(frame));
        assert(self@ =~= old(self)@.push(frame@));
    }

    /// `ALLOW address`.
    pub fn allow(address: &str) -> (r: Command)
        ensures
            r@ == seq!["ALLOW"@, address@],
    {
        Command::with_arg("ALLOW", address)
    }

    /// `DENY address`.
    pub fn deny(address: &str) -> (r: Command)
        ensures
            r@ == seq!["DENY"@, address@],
    {
        Command::with_arg("DENY", address)
    }

    /// `PLAIN file_path`.
    pub fn plain(filename: &str) -> (r: Command)
        ensures
            r@ == seq!["PLAIN"@, filename@],
    {
        Command::with_arg("PLAIN", filename)
    }

    /// `CURVE location`, with `*` standing for the wildcard source.
    pub fn curve(location: Option<&str>) -> (r: Command)
        ensures
            r@ == seq!["CURVE"@, curve_location(location)],
    {
        match location {
            Some(loc) => Command::with_arg("CURVE", loc),
            None => Command::with_arg("CURVE", "*"),
        }
    }

    /// `VERBOSE`.
    pub fn verbose() -> (r: Command)
        ensures
            r@ == seq!["VERBOSE"@],
    {
        Command::verb("VERBOSE")
    }

    /// `START`.
    pub fn start() -> (r: Command)
        ensures
            r@ == seq!["START"@],
    {
        Command::verb("START")
    }

    /// `LISTEN` followed by each category's token in the order given,
    /// duplicates included.
    pub fn listen(attrs: &[ZMonitorEvents]) -> (r: Command)
        ensures
            r@ == seq!["LISTEN"@] + tokens_of(attrs@),
    {
        let mut r = Command::verb("LISTEN");
        let mut i: usize = 0;
        while i < attrs.len()
            invariant
                i <= attrs@.len(),
                r@ == seq!["LISTEN"@] + tokens_of(attrs@.subrange(0, i as int)),
            decreases attrs@.len() - i,
        {
            r.add_frame(attrs[i].to_str());
            assert(attrs@.subrange(0, i + 1) == attrs@.subrange(0, i as int).push(attrs@[i as int]));
            assert(tokens_of(attrs@.subrange(0, i + 1)) =~= tokens_of(attrs@.subrange(0, i as int)).push(token_of(attrs@[i as int])));
            i = i + 1;
        }
        assert(attrs@.subrange(0, attrs@.len() as int) == attrs@);
        r
    }
}

} // verus!
