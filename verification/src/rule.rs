//! Rules: what every snapshot that is published in a store has to satisfy.
//!
//! A store is shared, so a contract on `load` cannot name the snapshot that
//! comes back: between any two calls of one caller another caller may have
//! replaced it. What a reader can rely on is that it is the snapshot the store
//! was set up with, or one that was published later; and a rule says what
//! holds of every snapshot that is published later.

use vstd::prelude::*;

verus! {

/// What a snapshot has to satisfy to be published in a store.
///
/// A rule is only ever named as a type; no value of it is needed. A store
/// names its rule as its second type parameter; `store` demands that the rule
/// admits the snapshot, and in return every `load` promises the store's
/// initial snapshot or one that the rule admits.
///
/// ```ignore
/// pub struct Numbered;
///
/// impl Rule<Settings> for Numbered {
///     open spec fn admits(snapshot: Settings) -> bool {
///         snapshot.version >= 1
///     }
/// }
///
/// fn reader(store: &ConfigStore<Settings, Numbered>)
///     requires
///         store.initial().version >= 1,
/// {
///     let settings = store.load();
///     assert(settings.version >= 1);
/// }
/// ```
pub trait Rule<T> {
    /// Whether a store under this rule may hold `snapshot`.
    spec fn admits(snapshot: T) -> bool;
}

/// The rule that admits every snapshot.
pub struct Unrestricted;

impl<T> Rule<T> for Unrestricted {
    open spec fn admits(snapshot: T) -> bool {
        true
    }
}

} // verus!
