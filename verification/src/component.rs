//! The installable WynObserve components.
use vstd::prelude::*;

verus! {

/// One of the packages that the Updater manages.
#[derive(Debug, Clone, Copy, PartialEq, Eq, Structural)]
pub enum Component {
    Agent,
    Observatory,
    Updater,
}

impl Component {
    /// Every component, in the order the Updater reports them.
    pub const ALL: [Component; 3] = [Component::Agent, Component::Observatory, Component::Updater];

    pub open spec fn spec_display_name(self) -> Seq<char> {
        match self {
            Component::Agent => "Agent"@,
            Component::Observatory => "Observatory"@,
            Component::Updater => "Updater"@,
        }
    }

    pub open spec fn spec_package_name(self) -> Seq<char> {
        match self {
            Component::Agent => "wyncommand-agent"@,
            Component::Observatory => "wynobserve"@,
            Component::Updater => "wyn-updater"@,
        }
    }

    pub open spec fn spec_release_prefix(self) -> Seq<char> {
        match self {
            Component::Agent => "agent-v"@,
            Component::Observatory => "observatory-v"@,
            Component::Updater => "updater-v"@,
        }
    }

    /// The human-readable name.
    pub fn display_name(self) -> (r: &'static str)
        ensures
            r@ == self.spec_display_name(),
    {
        match self {
            Component::Agent => "Agent",
            Component::Observatory => "Observatory",
            Component::Updater => "Updater",
        }
    }

    /// The Debian package name.
    pub fn package_name(self) -> (r: &'static str)
        ensures
            r@ == self.spec_package_name(),
    {
        match self {
            Component::Agent => "wyncommand-agent",
            Component::Observatory => "wynobserve",
            Component::Updater => "wyn-updater",
        }
    }

    /// The prefix of the release tags that carry this component.
    pub fn release_prefix(self) -> (r: &'static str)
        ensures
            r@ == self.spec_release_prefix(),
    {
        match self {
            Component::Agent => "agent-v",
            Component::Observatory => "observatory-v",
            Component::Updater => "updater-v",
        }
    }
}

} // verus!
