//! The capability plugins that startup attaches, and their order.

use vstd::prelude::*;

verus! {

/// The six framework capability plugins that the application attaches at
/// startup: an HTTP client, OS metadata, an external opener, a key-value
/// store, shell access, and the encrypted secret vault.
#[derive(Clone, Copy, Debug, PartialEq, Eq, Structural)]
pub enum Plugin {
    Http,
    Os,
    Opener,
    Store,
    Shell,
    Stronghold,
}

/// The order in which startup registers the plugins: the five capabilities
/// attached while the application is built, then the vault, which is
/// attached during the setup phase once its salt-file path is known.
pub open spec fn registration_order() -> Seq<Plugin> {
    seq![
        Plugin::Http,
        Plugin::Os,
        Plugin::Opener,
        Plugin::Store,
        Plugin::Shell,
        Plugin::Stronghold,
    ]
}

/// How many plugins are attached while the application is built, before
/// the setup phase begins.
pub open spec fn builder_plugin_count() -> int {
    5
}

/// Every position in the registration order names a different plugin: the
/// order itself never asks for a plugin twice.
pub proof fn lemma_order_has_no_duplicates()
    ensures
        forall|i: int, j: int|
            0 <= i < j < registration_order().len()
                ==> registration_order()[i] != registration_order()[j],
{
}

/// Every plugin appears somewhere in the registration order.
pub proof fn lemma_order_is_complete()
    ensures
        forall|p: Plugin| #[trigger] registration_order().contains(p),
{
    assert forall|p: Plugin| #[trigger] registration_order().contains(p) by {
        match p {
            Plugin::Http => assert(registration_order()[0] == p),
            Plugin::Os => assert(registration_order()[1] == p),
            Plugin::Opener => assert(registration_order()[2] == p),
            Plugin::Store => assert(registration_order()[3] == p),
            Plugin::Shell => assert(registration_order()[4] == p),
            Plugin::Stronghold => assert(registration_order()[5] == p),
        }
    }
}

} // verus!
