//! The attempt-id grammar stated for `uuid::Uuid::parse_str`.

use pumas_core::uuid_text::uuid_is_valid;

#[test]
fn attempt_ids_follow_the_stated_grammar() {
    for accepted in [
        "67e5504410b1426f9247bb680e5fe0c8",
        "67e55044-10b1-426f-9247-bb680e5fe0c8",
        "F9168C5E-CEB2-4faa-B6BF-329BF39FA1E4",
        "{6d93bade-bd9f-4e13-8914-9474e1e3567b}",
        "urn:uuid:67e55044-10b1-426f-9247-bb680e5fe0c8",
        "URN:UUID:67e55044-10b1-426f-9247-bb680e5fe0c8",
    ] {
        assert!(uuid_is_valid(accepted), "{accepted}");
    }
    for refused in [
        "",
        "{}",
        "67e5504410b1426f9247bb680e5fe0c",
        "67e55044-10b1-426f-9247-bb680e5fe0c8a",
        "67e55044x10b1-426f-9247-bb680e5fe0c8",
        "67e55044-10b1-426f-9247-bb680e5fe0cg",
        "(6d93bade-bd9f-4e13-8914-9474e1e3567b)",
        "urn:uuid-67e55044-10b1-426f-9247-bb680e5fe0c8",
        "67e55044-10b1-426f-9247-bb680e5fe0é",
    ] {
        assert!(!uuid_is_valid(refused), "{refused}");
    }
}
