use addr_resolver::error::{ErrorKind, ResolveError};
use addr_resolver::slots::{AddressCache, Slot};

const ALL: [Slot; 6] =
    [Slot::Update, Slot::Create, Slot::Shutdown, Slot::Notify, Slot::Wait, Slot::GetInstance];

#[test]
fn new_cache_is_empty() {
    let cache = AddressCache::new();
    for slot in ALL {
        assert_eq!(cache.get(slot), None);
    }
    assert_eq!(cache.first_unresolved(), Some(Slot::Update));
}

#[test]
fn store_fills_one_slot() {
    for slot in ALL {
        let mut cache = AddressCache::new();
        assert_eq!(cache.store(slot, 0x1234), 0x1234);
        for other in ALL {
            if other == slot {
                assert_eq!(cache.get(other), Some(0x1234));
            } else {
                assert_eq!(cache.get(other), None);
            }
        }
    }
}

#[test]
fn store_keeps_the_first_address() {
    for slot in ALL {
        let mut cache = AddressCache::new();
        assert_eq!(cache.store(slot, 1), 1);
        assert_eq!(cache.store(slot, 2), 1);
        assert_eq!(cache.store(slot, 0), 1);
        assert_eq!(cache.get(slot), Some(1));
    }
}

#[test]
fn first_unresolved_follows_the_order_of_a_session() {
    let mut cache = AddressCache::new();
    for (index, slot) in ALL.into_iter().enumerate() {
        assert_eq!(cache.first_unresolved(), Some(slot));
        cache.store(slot, index as u64);
    }
    assert_eq!(cache.first_unresolved(), None);
}

#[test]
fn first_unresolved_skips_what_is_resolved() {
    let mut cache = AddressCache::new();
    cache.store(Slot::Wait, 5);
    cache.store(Slot::Update, 1);
    assert_eq!(cache.first_unresolved(), Some(Slot::Create));
    cache.store(Slot::Create, 2);
    cache.store(Slot::Shutdown, 3);
    cache.store(Slot::Notify, 4);
    assert_eq!(cache.first_unresolved(), Some(Slot::GetInstance));
}

#[test]
fn slots_have_their_names() {
    assert_eq!(Slot::Update.name(), "update");
    assert_eq!(Slot::Create.name(), "create");
    assert_eq!(Slot::Shutdown.name(), "shutdown");
    assert_eq!(Slot::Notify.name(), "notify");
    assert_eq!(Slot::Wait.name(), "wait");
    assert_eq!(Slot::GetInstance.name(), "getInstance");
}

#[test]
fn error_kinds_are_put_in_words() {
    assert_eq!(ErrorKind::BackendQueryError.describe(), "backend query failed");
    assert_eq!(
        ErrorKind::DeserializationError.describe(),
        "response does not have the expected shape"
    );
    assert_eq!(ErrorKind::NoReferencesFound.describe(), "no references found");
    assert_eq!(ErrorKind::NoCandidateFunctionsFound.describe(), "no candidate functions found");
    assert_eq!(ErrorKind::NoCallerChainFound.describe(), "no caller chain found");
    assert_eq!(
        ErrorKind::NoCandidateWithExpectedCount.describe(),
        "no candidate with the expected count"
    );
    assert_eq!(ErrorKind::ImportNotFound.describe(), "import not found");
}

#[test]
fn error_message_names_slot_and_kind() {
    let error = ResolveError { slot: Slot::Notify, kind: ErrorKind::NoCandidateWithExpectedCount };
    assert_eq!(error.message(), "notify: no candidate with the expected count");
    let error = ResolveError { slot: Slot::GetInstance, kind: ErrorKind::NoCallerChainFound };
    assert_eq!(error.message(), "getInstance: no caller chain found");
    let error = ResolveError { slot: Slot::Wait, kind: ErrorKind::ImportNotFound };
    assert_eq!(error.message(), "wait: import not found");
}
