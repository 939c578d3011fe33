//! The startup hook: the decisions taken once, while the application starts,
//! on the way from the main window to the preferences of its webview.
//!
//! The hook walks a fixed chain of lookups on objects that the host owns:
//! main window, webview, configuration, preferences. The lookups and the one
//! write at the end of the chain are the host's work; which of them is wanted
//! next, and how the hook ends, is decided here. The caller performs a
//! [`Step`], reports whether the link resolved, and is told the next one by
//! [`next_step`], until a step is a [`Step::Finish`].

use vstd::prelude::*;

verus! {

/// The operating system that the application runs on, as far as the hook
/// tells systems apart.
#[derive(Clone, Copy, Debug, PartialEq, Eq, Structural)]
pub enum Platform {
    /// The one system whose webview carries the preference.
    MacOs,
    /// Any other system: the hook looks for the main window and does no more.
    Other,
}

/// One link of the chain from the application to its webview's preferences.
#[derive(Clone, Copy, Debug, PartialEq, Eq, Structural)]
pub enum Link {
    /// The application's main window, found by [`main_window_label`].
    MainWindow,
    /// The native webview that the main window embeds.
    Webview,
    /// The configuration object of that webview.
    Configuration,
    /// The preferences object of that configuration.
    Preferences,
}

/// How the hook ends.
#[derive(Clone, Copy, Debug, PartialEq, Eq, Structural)]
pub enum Outcome {
    /// The main window was not found. Startup is given up with the
    /// diagnostic of [`Outcome::diagnostic`].
    Aborted,
    /// Startup goes on and the host is left as it was found.
    Untouched,
    /// Every link resolved. The host writes `true` to the flag that lets
    /// scripts open windows, on the preferences just resolved, and startup
    /// goes on.
    ScriptWindowsAllowed,
}

/// What the hook wants from the host next.
#[derive(Clone, Copy, Debug, PartialEq, Eq, Structural)]
pub enum Step {
    /// Look this link up, on the object that the link before it gave. A
    /// lookup changes nothing on the host.
    Resolve(Link),
    /// The hook is over.
    Finish(Outcome),
}

/// A host, reduced to what the hook can learn of it: for each link, whether
/// it resolves when the hook asks for it.
#[derive(Clone, Copy, Debug, PartialEq, Eq, Structural)]
pub struct Chain {
    pub main_window: bool,
    pub webview: bool,
    pub configuration: bool,
    pub preferences: bool,
}

impl Link {
    /// The number of links that stand before this one.
    pub open spec fn depth(self) -> nat {
        match self {
            Link::MainWindow => 0,
            Link::Webview => 1,
            Link::Configuration => 2,
            Link::Preferences => 3,
        }
    }

    /// The link that is looked up on what this one gave; none after the last.
    pub open spec fn following(self) -> Option<Link> {
        match self {
            Link::MainWindow => Some(Link::Webview),
            Link::Webview => Some(Link::Configuration),
            Link::Configuration => Some(Link::Preferences),
            Link::Preferences => None,
        }
    }
}

impl Outcome {
    /// Whether startup goes on after the hook.
    pub open spec fn spec_proceeds(&self) -> bool {
        !(*self is Aborted)
    }

    /// The value that the host is to write to the flag, if the hook asks for
    /// a write at all.
    pub open spec fn spec_flag_written(&self) -> Option<bool> {
        if *self is ScriptWindowsAllowed {
            Some(true)
        } else {
            None
        }
    }

    /// The flag once the host has done what this outcome asks, given what it
    /// held before.
    pub open spec fn flag_after(&self, before: bool) -> bool {
        match self.spec_flag_written() {
            Some(value) => value,
            None => before,
        }
    }

    /// The text with which startup is given up; none where it goes on.
    pub open spec fn spec_diagnostic(&self) -> Option<Seq<char>> {
        if *self is Aborted {
            Some("Failed to get main window"@)
        } else {
            None
        }
    }

    /// Whether startup goes on after the hook.
    #[verifier::when_used_as_spec(spec_proceeds)]
    pub fn proceeds(&self) -> (goes_on: bool)
        ensures
            goes_on == self.spec_proceeds(),
    {
        match self {
            Outcome::Aborted => false,
            Outcome::Untouched => true,
            Outcome::ScriptWindowsAllowed => true,
        }
    }

    /// The value that the host is to write to the flag, if any.
    #[verifier::when_used_as_spec(spec_flag_written)]
    pub fn flag_written(&self) -> (value: Option<bool>)
        ensures
            value == self.spec_flag_written(),
    {
        match self {
            Outcome::ScriptWindowsAllowed => Some(true),
            Outcome::Aborted => None,
            Outcome::Untouched => None,
        }
    }

    /// The diagnostic with which startup is given up; `None` where startup
    /// goes on.
    pub fn diagnostic(&self) -> (message: Option<&'static str>)
        ensures
            match message {
                Some(text) => self.spec_diagnostic() == Some(text@),
                None => self.spec_diagnostic() is None,
            },
    {
        match self {
            Outcome::Aborted => Some("Failed to get main window"),
            Outcome::Untouched => None,
            Outcome::ScriptWindowsAllowed => None,
        }
    }
}

impl Chain {
    /// Whether `link` resolves on this host.
    pub open spec fn spec_resolves(&self, link: Link) -> bool {
        match link {
            Link::MainWindow => self.main_window,
            Link::Webview => self.webview,
            Link::Configuration => self.configuration,
            Link::Preferences => self.preferences,
        }
    }

    /// Whether every link that stands before `link` resolves on this host,
    /// so that a lookup of `link` has an object to start from.
    pub open spec fn leads_to(&self, link: Link) -> bool {
        match link {
            Link::MainWindow => true,
            Link::Webview => self.main_window,
            Link::Configuration => self.main_window && self.webview,
            Link::Preferences => self.main_window && self.webview && self.configuration,
        }
    }

    /// Whether `link` resolves on this host.
    #[verifier::when_used_as_spec(spec_resolves)]
    pub fn resolves(&self, link: Link) -> (found: bool)
        ensures
            found == self.spec_resolves(link),
    {
        match link {
            Link::MainWindow => self.main_window,
            Link::Webview => self.webview,
            Link::Configuration => self.configuration,
            Link::Preferences => self.preferences,
        }
    }
}

/// The step that follows a lookup of `link` which did or did not resolve.
///
/// A main window that is missing ends the hook in [`Outcome::Aborted`]. Any
/// other missing link, and any system but [`Platform::MacOs`], ends it with
/// the host untouched. Otherwise the next link is wanted, and after the last
/// one the write.
pub open spec fn step_after(platform: Platform, link: Link, resolved: bool) -> Step {
    if link is MainWindow && !resolved {
        Step::Finish(Outcome::Aborted)
    } else if !resolved || platform is Other {
        Step::Finish(Outcome::Untouched)
    } else {
        match link.following() {
            Some(next) => Step::Resolve(next),
            None => Step::Finish(Outcome::ScriptWindowsAllowed),
        }
    }
}

/// The step that the hook has reached after `replies` answers from a host on
/// which the links resolve as `chain` says. A finished hook stays finished.
pub open spec fn step_at(platform: Platform, chain: Chain, replies: nat) -> Step
    decreases replies,
{
    if replies == 0 {
        Step::Resolve(Link::MainWindow)
    } else {
        match step_at(platform, chain, (replies - 1) as nat) {
            Step::Resolve(link) => step_after(platform, link, chain.resolves(link)),
            Step::Finish(outcome) => Step::Finish(outcome),
        }
    }
}

/// How the hook ends on a host on which the links resolve as `chain` says.
pub open spec fn hook_outcome(platform: Platform, chain: Chain) -> Outcome {
    if !chain.main_window {
        Outcome::Aborted
    } else if platform is MacOs && chain.webview && chain.configuration && chain.preferences {
        Outcome::ScriptWindowsAllowed
    } else {
        Outcome::Untouched
    }
}

/// The label under which the host knows the main window.
pub fn main_window_label() -> (label: &'static str)
    ensures
        label@ == "main"@,
{
    "main"
}

/// The step with which the hook begins: it looks for the main window.
pub fn first_step() -> (step: Step)
    ensures
        step == Step::Resolve(Link::MainWindow),
{
    Step::Resolve(Link::MainWindow)
}

/// The step that follows a lookup of `link`, given whether it resolved.
pub fn next_step(platform: Platform, link: Link, resolved: bool) -> (step: Step)
    ensures
        step == step_after(platform, link, resolved),
{
    if !resolved {
        match link {
            Link::MainWindow => Step::Finish(Outcome::Aborted),
            _ => Step::Finish(Outcome::Untouched),
        }
    } else {
        match platform {
            Platform::Other => Step::Finish(Outcome::Untouched),
            Platform::MacOs => match link {
                Link::MainWindow => Step::Resolve(Link::Webview),
                Link::Webview => Step::Resolve(Link::Configuration),
                Link::Configuration => Step::Resolve(Link::Preferences),
                Link::Preferences => Step::Finish(Outcome::ScriptWindowsAllowed),
            },
        }
    }
}

/// Runs the hook to its end against a host whose answers are known
/// beforehand, and returns how it ended.
pub fn settle(platform: Platform, chain: &Chain) -> (outcome: Outcome)
    ensures
        outcome == hook_outcome(platform, *chain),
{
    let mut step = first_step();
    let ghost mut replies: nat = 0;
    loop
        invariant
            replies <= 4,
            step == step_at(platform, *chain, replies),
        decreases 4 - replies,
    {
        proof {
            lemma_hook_settles(platform, *chain, replies);
        }
        match step {
            Step::Finish(outcome) => {
                return outcome;
            },
            Step::Resolve(link) => {
                step = next_step(platform, link, chain.resolves(link));
                proof {
                    replies = replies + 1;
                }
            },
        }
    }
}

/// The hook asks for the links in their order, each at most once and only
/// where every link before it resolved, and past the main window only on
/// [`Platform::MacOs`]. It is over after four answers at the latest, and once
/// over it has ended as [`hook_outcome`] says.
pub proof fn lemma_hook_settles(platform: Platform, chain: Chain, replies: nat)
    ensures
        match step_at(platform, chain, replies) {
            Step::Resolve(link) => {
                &&& link.depth() == replies
                &&& chain.leads_to(link)
                &&& replies > 0 ==> platform is MacOs
            },
            Step::Finish(outcome) => outcome == hook_outcome(platform, chain),
        },
        replies >= 4 ==> step_at(platform, chain, replies) is Finish,
    decreases replies,
{
    if replies > 0 {
        lemma_hook_settles(platform, chain, (replies - 1) as nat);
    }
}

/// Where the main window is missing, the hook is over after the first answer
/// and startup is given up with the diagnostic: on every system, whatever
/// the other links would have done, and without a write to the flag.
pub proof fn lemma_missing_window_aborts(
    platform: Platform,
    chain: Chain,
    before: bool,
    replies: nat,
)
    requires
        !chain.main_window,
    ensures
        hook_outcome(platform, chain) == Outcome::Aborted,
        !hook_outcome(platform, chain).proceeds(),
        hook_outcome(platform, chain).spec_diagnostic() is Some,
        hook_outcome(platform, chain).flag_after(before) == before,
        replies >= 1 ==> step_at(platform, chain, replies) == Step::Finish(Outcome::Aborted),
    decreases replies,
{
    if replies > 1 {
        lemma_missing_window_aborts(platform, chain, before, (replies - 1) as nat);
    } else {
        assert(step_at(platform, chain, 0) == Step::Resolve(Link::MainWindow));
    }
}

/// Where the main window exists, and with it every further link on
/// [`Platform::MacOs`], the hook leaves the flag set to `true`, whatever it
/// held before, and startup goes on. On the way the hook asks for nothing
/// but lookups, so the write is the one change that it makes.
pub proof fn lemma_present_window_sets_flag(
    platform: Platform,
    chain: Chain,
    before: bool,
    replies: nat,
)
    requires
        chain.main_window,
        platform is MacOs,
        chain.webview,
        chain.configuration,
        chain.preferences,
    ensures
        hook_outcome(platform, chain) == Outcome::ScriptWindowsAllowed,
        hook_outcome(platform, chain).flag_after(before) == true,
        hook_outcome(platform, chain).proceeds(),
        step_at(platform, chain, replies) is Resolve || step_at(platform, chain, replies)
            == Step::Finish(Outcome::ScriptWindowsAllowed),
{
    lemma_hook_settles(platform, chain, replies);
}

/// Where the main window exists, startup goes on, on every system and
/// whatever the other links do; and the hook never lowers the flag: it is
/// left as it was unless every link resolved on [`Platform::MacOs`].
pub proof fn lemma_present_window_proceeds(platform: Platform, chain: Chain, before: bool)
    requires
        chain.main_window,
    ensures
        hook_outcome(platform, chain).proceeds(),
        hook_outcome(platform, chain).spec_diagnostic() is None,
        hook_outcome(platform, chain).flag_after(before) == (before || (platform is MacOs
            && chain.webview && chain.configuration && chain.preferences)),
{
}

} // verus!
