//! The link to the two video players: one process and one control channel
//! per screen. The handles are kept here; starting, writing and stopping
//! them is left to the owner, which reports back.
use vstd::prelude::*;
use vstd::string::StringExecFns;

verus! {

/// One of the two physical outputs.
#[derive(Clone, Copy, Debug, PartialEq, Eq, Structural)]
pub enum Screen {
    Zero,
    One,
}

/// What a link holds: the two channel paths, and for each screen its
/// process and its channel, where present.
pub ghost struct LinkView<P, C> {
    pub path_0: Seq<char>,
    pub path_1: Seq<char>,
    pub process_0: Option<P>,
    pub process_1: Option<P>,
    pub channel_0: Option<C>,
    pub channel_1: Option<C>,
}

/// The control channel path of a screen: the base path with `_0` or `_1`.
pub open spec fn channel_path_of(base: Seq<char>, s: Screen) -> Seq<char> {
    match s {
        Screen::Zero => base + "_0"@,
        Screen::One => base + "_1"@,
    }
}

/// A link with the channel paths of `base` and nothing started.
pub open spec fn fresh_view<P, C>(base: Seq<char>) -> LinkView<P, C> {
    LinkView {
        path_0: channel_path_of(base, Screen::Zero),
        path_1: channel_path_of(base, Screen::One),
        process_0: None,
        process_1: None,
        channel_0: None,
        channel_1: None,
    }
}

/// Terminating all: the processes that were tracked are handed out, and
/// nothing but the paths is left.
pub open spec fn terminate_view<P, C>(v: LinkView<P, C>) -> (LinkView<P, C>, (Option<P>, Option<P>)) {
    (
        LinkView { process_0: None, process_1: None, channel_0: None, channel_1: None, ..v },
        (v.process_0, v.process_1),
    )
}

/// The outcome of a broadcast from the outcomes of its two writes, where
/// `None` stands for a channel that is absent and was skipped: the first
/// failure wins, and skipped channels are no failure.
pub open spec fn broadcast_outcome_of<E>(
    first: Option<Result<(), E>>,
    second: Option<Result<(), E>>,
) -> Result<(), E> {
    match first {
        Some(Err(e)) => Err(e),
        _ => match second {
            Some(Err(e)) => Err(e),
            _ => Ok(()),
        },
    }
}

/// The video players' processes and control channels.
pub struct PresentationLink<P, C> {
    process_0: Option<P>,
    process_1: Option<P>,
    channel_path_0: String,
    channel_path_1: String,
    channel_0: Option<C>,
    channel_1: Option<C>,
}

impl<P, C> View for PresentationLink<P, C> {
    type V = LinkView<P, C>;

    closed spec fn view(&self) -> LinkView<P, C> {
        LinkView {
            path_0: self.channel_path_0@,
            path_1: self.channel_path_1@,
            process_0: self.process_0,
            process_1: self.process_1,
            channel_0: self.channel_0,
            channel_1: self.channel_1,
        }
    }
}

impl<P, C> PresentationLink<P, C> {
    /// A link whose channel paths are `base` with `_0` and `_1`; nothing is
    /// started or connected yet.
    pub fn new(base: &str) -> (r: Self)
        ensures
            r@ == fresh_view::<P, C>(base@),
    {
        proof {
            reveal_strlit("_0");
            reveal_strlit("_1");
        }
        let mut path_0 = String::from_str(base);
        path_0.append("_0");
        let mut path_1 = String::from_str(base);
        path_1.append("_1");
        PresentationLink {
            process_0: None,
            process_1: None,
            channel_path_0: path_0,
            channel_path_1: path_1,
            channel_0: None,
            channel_1: None,
        }
    }

    /// The control channel path of screen `s`.
    pub fn channel_path(&self, s: Screen) -> (r: &str)
        ensures
            r@ == match s {
                Screen::Zero => self@.path_0,
                Screen::One => self@.path_1,
            },
    {
        match s {
            Screen::Zero => self.channel_path_0.as_str(),
            Screen::One => self.channel_path_1.as_str(),
        }
    }

    /// Whether a process is tracked for screen `s`.
    pub fn has_process(&self, s: Screen) -> (r: bool)
        ensures
            r == match s {
                Screen::Zero => self@.process_0 is Some,
                Screen::One => self@.process_1 is Some,
            },
    {
        match s {
            Screen::Zero => self.process_0.is_some(),
            Screen::One => self.process_1.is_some(),
        }
    }

    /// Whether the channel of screen `s` is connected.
    pub fn has_channel(&self, s: Screen) -> (r: bool)
        ensures
            r == match s {
                Screen::Zero => self@.channel_0 is Some,
                Screen::One => self@.channel_1 is Some,
            },
    {
        match s {
            Screen::Zero => self.channel_0.is_some(),
            Screen::One => self.channel_1.is_some(),
        }
    }

    /// Tracks `p` as the process of screen `s`, from the moment it was
    /// spawned; it stays tracked until everything is terminated.
    pub fn track_process(&mut self, s: Screen, p: P)
        ensures
            final(self)@ == match s {
                Screen::Zero => LinkView { process_0: Some(p), ..old(self)@ },
                Screen::One => LinkView { process_1: Some(p), ..old(self)@ },
            },
    {
        match s {
            Screen::Zero => self.process_0 = Some(p),
            Screen::One => self.process_1 = Some(p),
        }
    }

    /// Puts `c` in place as the channel of screen `s`.
    pub fn attach_channel(&mut self, s: Screen, c: C)
        ensures
            final(self)@ == match s {
                Screen::Zero => LinkView { channel_0: Some(c), ..old(self)@ },
                Screen::One => LinkView { channel_1: Some(c), ..old(self)@ },
            },
    {
        match s {
            Screen::Zero => self.channel_0 = Some(c),
            Screen::One => self.channel_1 = Some(c),
        }
    }

    /// Takes the channel of screen `s` out, for a write; `attach_channel`
    /// puts it back.
    pub fn take_channel(&mut self, s: Screen) -> (r: Option<C>)
        ensures
            r == match s {
                Screen::Zero => old(self)@.channel_0,
                Screen::One => old(self)@.channel_1,
            },
            final(self)@ == match s {
                Screen::Zero => LinkView { channel_0: None, ..old(self)@ },
                Screen::One => LinkView { channel_1: None, ..old(self)@ },
            },
    {
        match s {
            Screen::Zero => self.channel_0.take(),
            Screen::One => self.channel_1.take(),
        }
    }

    /// Ends the session of the players: hands out the processes that are
    /// tracked, for the owner to kill and reap, and discards both channels.
    /// Safe when nothing was ever started.
    pub fn terminate_all(&mut self) -> (r: (Option<P>, Option<P>))
        ensures
            (final(self)@, r) == terminate_view(old(self)@),
    {
        let p0 = self.process_0.take();
        let p1 = self.process_1.take();
        self.channel_0 = None;
        self.channel_1 = None;
        (p0, p1)
    }
}

/// The outcome of a broadcast, from the outcome of the write on each
/// channel (`None` where the channel was absent and skipped): both writes
/// were tried, and the first failure is the one reported.
pub fn broadcast_outcome<E>(first: Option<Result<(), E>>, second: Option<Result<(), E>>) -> (r: Result<(), E>)
    ensures
        r == broadcast_outcome_of(first, second),
{
    match first {
        Some(Err(e)) => Err(e),
        _ => match second {
            Some(Err(e)) => Err(e),
            _ => Ok(()),
        },
    }
}

/// The channel paths are the base path with `_0` and `_1`, whatever the
/// base, and a fresh link holds nothing else.
pub proof fn lemma_channel_paths<P, C>(base: Seq<char>)
    ensures
        fresh_view::<P, C>(base).path_0 == base + seq!['_', '0'],
        fresh_view::<P, C>(base).path_1 == base + seq!['_', '1'],
{
    reveal_strlit("_0");
    reveal_strlit("_1");
}

/// Terminating twice is safe: the second time hands out no process and
/// leaves the link as the first left it.
pub proof fn lemma_terminate_twice<P, C>(v: LinkView<P, C>)
    ensures
        terminate_view(terminate_view(v).0) == (terminate_view(v).0, (None::<P>, None::<P>)),
{
}

/// With one channel absent, a broadcast succeeds or fails as the write on
/// the other channel does.
pub proof fn lemma_broadcast_one_channel<E>(w: Result<(), E>)
    ensures
        broadcast_outcome_of(None, Some(w)) == w,
        broadcast_outcome_of(Some(w), None) == w,
{
    match w {
        Ok(u) => {
            assert(u == ());
        },
        Err(_) => {},
    }
}

} // verus!
