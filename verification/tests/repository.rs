use backeum::collection::Collection;
use backeum::credentials::{GlobalId, Proof};
use backeum::dates::Date;
use backeum::errors::Error;
use backeum::managers::{MEMBERSHIP_RESOURCE, TROPHY_RESOURCE};
use backeum::repository::Repository;
use backeum::util::generate_created_string;

const OWNER_BADGE: u64 = 900;
const DAPP_DEFINITION: u64 = 901;

fn epoch() -> Date {
    Date { year: 1970, month: 1, day: 1 }
}

fn date(year: u32, month: u8, day: u8) -> Date {
    Date { year, month, day }
}

fn operator_proof() -> Proof {
    Proof::of(GlobalId { resource: OWNER_BADGE, local: 0 })
}

fn new_runner() -> (Repository, GlobalId) {
    let mut repo = Repository::new(
        "https://localhost:8080".to_string(),
        OWNER_BADGE,
        DAPP_DEFINITION,
    );
    let badge = repo
        .mint_creator_badge("Kansuler".to_string(), "kansuler".to_string(), epoch())
        .unwrap();
    (repo, badge)
}

fn new_collection(repo: &mut Repository, badge: GlobalId) -> Collection {
    repo.new_collection_component(
        &Proof::of(badge),
        "Trophy name".to_string(),
        "Kansulers trophy".to_string(),
    )
    .unwrap()
}

#[test]
fn new_collection_component_success() {
    let (mut repo, badge) = new_runner();
    let collection = new_collection(&mut repo, badge);

    assert_eq!(collection.collection_id, "collection-0");
    assert_eq!(collection.creator_name, "Kansuler");
    assert_eq!(collection.creator_slug, "kansuler");
    assert_eq!(collection.creator_badge_global_id, badge);
    assert_eq!(collection.closed, None);
}

#[test]
fn new_collection_component_failure_unknown_badge() {
    let (mut repo, _badge) = new_runner();

    // A badge of some foreign resource class cannot attest as a creator
    // credential.
    let fake = Proof::of(GlobalId { resource: 555, local: 0 });
    let result = repo.new_collection_component(
        &fake,
        "Trophy name".to_string(),
        "Kansulers trophy".to_string(),
    );
    assert_eq!(result.err(), Some(Error::WrongClass));
}

#[test]
fn new_collection_component_and_badge_success() {
    let mut repo = Repository::new(
        "https://localhost:8080".to_string(),
        OWNER_BADGE,
        DAPP_DEFINITION,
    );

    let (mut collection, badge) = repo
        .new_collection_component_and_badge(
            "Kansuler".to_string(),
            "kansuler".to_string(),
            "Trophy name".to_string(),
            "Kansulers trophy".to_string(),
            epoch(),
        )
        .unwrap();

    assert!(repo.managers.has_creator(badge.local));
    assert_eq!(collection.creator_badge_global_id, badge);

    // The returned credential owns the collection.
    let withdrawn = collection.withdraw_donations(&Proof::of(badge)).unwrap();
    assert_eq!(withdrawn, 0);
}

#[test]
fn merge_trophies_success() {
    let (mut repo, badge) = new_runner();
    let mut collection = new_collection(&mut repo, badge);

    let (trophy_1, thanks_1, _) = collection
        .donate_mint(&mut repo.managers, epoch(), 250)
        .unwrap();
    let (trophy_2, thanks_2, _) = collection
        .donate_mint(&mut repo.managers, epoch(), 250)
        .unwrap();
    assert_eq!(thanks_1 + thanks_2, 500);

    let merged_id = repo
        .merge_trophies(vec![trophy_1.local, trophy_2.local])
        .unwrap();
    assert_eq!(merged_id.resource, TROPHY_RESOURCE);

    // The inputs are destroyed; exactly one consolidated record remains.
    assert!(!repo.managers.has_trophy(trophy_1.local));
    assert!(!repo.managers.has_trophy(trophy_2.local));
    assert!(repo.managers.has_trophy(merged_id.local));

    let merged = repo.managers.trophy(merged_id.local);
    assert_eq!(merged.collection_id, collection.collection_id);
    assert_eq!(merged.name, "Trophy name");
    assert_eq!(merged.info_url, "https://localhost:8080/p/kansuler");
    assert_eq!(generate_created_string(merged.created), "1970-01-01");
    assert_eq!(merged.donated, 500);
    assert_eq!(merged.transactions.len(), 2);
    assert_eq!(
        merged.key_image_url,
        format!(
            "https://localhost:8080/nft/collection/{}?donated=500&created=1970-01-01",
            merged.collection_id
        )
    );
}

#[test]
fn merge_membership_success() {
    let (mut repo, badge) = new_runner();
    let mut collection = new_collection(&mut repo, badge);

    let (_, _, membership_1) = collection
        .donate_mint(&mut repo.managers, epoch(), 250)
        .unwrap();
    let (_, _, membership_2) = collection
        .donate_mint(&mut repo.managers, epoch(), 250)
        .unwrap();

    let merged_id = repo
        .merge_memberships(vec![membership_1.local, membership_2.local])
        .unwrap();
    assert_eq!(merged_id.resource, MEMBERSHIP_RESOURCE);

    assert!(!repo.managers.has_membership(membership_1.local));
    assert!(!repo.managers.has_membership(membership_2.local));

    let merged = repo.managers.membership(merged_id.local);
    assert_eq!(merged.creator_slug, "kansuler");
    assert_eq!(merged.creator_name, "Kansuler");
    assert_eq!(merged.name, "Membership: Kansuler");
    assert_eq!(merged.info_url, "https://localhost:8080/p/kansuler");
    assert_eq!(generate_created_string(merged.created), "1970-01-01");
    assert_eq!(merged.donated, 500);
    assert_eq!(
        merged.key_image_url,
        format!(
            "https://localhost:8080/nft/membership/{}?donated=500&created=1970-01-01",
            merged.creator_slug
        )
    );
}

#[test]
fn merge_failure_different_collection() {
    let (mut repo, badge) = new_runner();
    let mut collection_1 = new_collection(&mut repo, badge);
    let mut collection_2 = new_collection(&mut repo, badge);

    let (trophy_1, _, _) = collection_1
        .donate_mint(&mut repo.managers, epoch(), 250)
        .unwrap();
    let (trophy_2, _, _) = collection_2
        .donate_mint(&mut repo.managers, epoch(), 250)
        .unwrap();

    let result = repo.merge_trophies(vec![trophy_1.local, trophy_2.local]);
    assert_eq!(result.err(), Some(Error::AggregationMismatch));

    // No partial merge: both records survive untouched.
    assert!(repo.managers.has_trophy(trophy_1.local));
    assert!(repo.managers.has_trophy(trophy_2.local));
    assert_eq!(repo.managers.trophy(trophy_1.local).donated, 250);
    assert_eq!(repo.managers.trophy(trophy_2.local).donated, 250);
}

#[test]
fn scenario_merge_sums_totals_and_keeps_earliest_date() {
    let (mut repo, badge) = new_runner();
    let mut collection = new_collection(&mut repo, badge);

    let (trophy_1, _, _) = collection
        .donate_mint(&mut repo.managers, date(2023, 5, 2), 70)
        .unwrap();
    let (trophy_2, _, _) = collection
        .donate_mint(&mut repo.managers, date(2023, 4, 1), 170)
        .unwrap();

    let merged_id = repo
        .merge_trophies(vec![trophy_1.local, trophy_2.local])
        .unwrap();

    let merged = repo.managers.trophy(merged_id.local);
    assert_eq!(merged.donated, 240);
    assert_eq!(merged.created, date(2023, 4, 1));
}

#[test]
fn merge_orders_transactions_by_date() {
    let (mut repo, badge) = new_runner();
    let mut collection = new_collection(&mut repo, badge);

    let (trophy_1, _, _) = collection
        .donate_mint(&mut repo.managers, date(2023, 6, 1), 10)
        .unwrap();
    collection
        .donate_update(&mut repo.managers, date(2023, 6, 3), 20, &Proof::of(trophy_1))
        .unwrap();
    let (trophy_2, _, _) = collection
        .donate_mint(&mut repo.managers, date(2023, 6, 2), 5)
        .unwrap();

    let merged_id = repo
        .merge_trophies(vec![trophy_1.local, trophy_2.local])
        .unwrap();

    let merged = repo.managers.trophy(merged_id.local);
    assert_eq!(merged.transactions.len(), 3);
    assert_eq!(merged.transactions[0].created, date(2023, 6, 1));
    assert_eq!(merged.transactions[0].amount, 10);
    assert_eq!(merged.transactions[1].created, date(2023, 6, 2));
    assert_eq!(merged.transactions[1].amount, 5);
    assert_eq!(merged.transactions[2].created, date(2023, 6, 3));
    assert_eq!(merged.transactions[2].amount, 20);
}

#[test]
fn merge_single_trophy_rebuilds_record() {
    let (mut repo, badge) = new_runner();
    let mut collection = new_collection(&mut repo, badge);

    let (trophy_1, _, _) = collection
        .donate_mint(&mut repo.managers, epoch(), 150)
        .unwrap();

    let merged_id = repo.merge_trophies(vec![trophy_1.local]).unwrap();

    assert!(!repo.managers.has_trophy(trophy_1.local));
    let merged = repo.managers.trophy(merged_id.local);
    assert_eq!(merged.donated, 150);
    assert_eq!(merged.transactions.len(), 1);
}

#[test]
fn close_repository_blocks_new_collections() {
    let (mut repo, badge) = new_runner();
    let mut collection = new_collection(&mut repo, badge);

    repo.close_repository(&operator_proof(), epoch()).unwrap();

    // No further collection can be made.
    let result = repo.new_collection_component(
        &Proof::of(badge),
        "Trophy name".to_string(),
        "Kansulers trophy".to_string(),
    );
    assert_eq!(result.err(), Some(Error::RepositoryClosed));

    // Existing collections, credential issue and aggregation stay operable.
    let (trophy_1, _, _) = collection
        .donate_mint(&mut repo.managers, epoch(), 100)
        .unwrap();
    assert!(repo
        .mint_creator_badge("Other".to_string(), "other".to_string(), epoch())
        .is_ok());
    assert!(repo.merge_trophies(vec![trophy_1.local]).is_ok());

    // A second close is rejected.
    let again = repo.close_repository(&operator_proof(), epoch());
    assert_eq!(again, Err(Error::AlreadyClosed));
}

#[test]
fn close_repository_requires_operator() {
    let (mut repo, badge) = new_runner();

    let result = repo.close_repository(&Proof::of(badge), epoch());
    assert_eq!(result, Err(Error::Unauthorized));
    assert_eq!(repo.closed, None);
}

#[test]
fn redeem_thanks_token_burns_supply() {
    let (mut repo, badge) = new_runner();
    let mut collection = new_collection(&mut repo, badge);

    collection
        .donate_mint(&mut repo.managers, epoch(), 150)
        .unwrap();
    assert_eq!(repo.managers.thanks_supply, 150);

    repo.redeem_thanks_token(100);
    assert_eq!(repo.managers.thanks_supply, 50);
}

#[test]
fn reconfigure_base_path_rewrites_listed_records() {
    let (mut repo, badge) = new_runner();
    let mut collection = new_collection(&mut repo, badge);

    let (trophy_1, _, membership_1) = collection
        .donate_mint(&mut repo.managers, epoch(), 150)
        .unwrap();
    let (trophy_2, _, _) = collection
        .donate_mint(&mut repo.managers, epoch(), 70)
        .unwrap();

    repo.reconfigure_base_path(
        &operator_proof(),
        "https://n".to_string(),
        vec![trophy_1.local],
        vec![membership_1.local],
    )
    .unwrap();

    let trophy = repo.managers.trophy(trophy_1.local);
    assert_eq!(
        trophy.key_image_url,
        format!(
            "https://n/nft/collection/{}?donated=150&created=1970-01-01",
            trophy.collection_id
        )
    );
    let membership = repo.managers.membership(membership_1.local);
    assert_eq!(
        membership.key_image_url,
        format!(
            "https://n/nft/membership/{}?donated=150&created=1970-01-01",
            membership.creator_slug
        )
    );

    // Unlisted records keep their old url: no full-class scan.
    let untouched = repo.managers.trophy(trophy_2.local);
    assert_eq!(
        untouched.key_image_url,
        format!(
            "https://localhost:8080/nft/collection/{}?donated=70&created=1970-01-01",
            untouched.collection_id
        )
    );

    // Later derivations use the new base path.
    let (trophy_3, _, _) = collection
        .donate_mint(&mut repo.managers, epoch(), 30)
        .unwrap();
    let fresh = repo.managers.trophy(trophy_3.local);
    assert_eq!(
        fresh.key_image_url,
        format!(
            "https://n/nft/collection/{}?donated=30&created=1970-01-01",
            fresh.collection_id
        )
    );
}

#[test]
fn reconfigure_base_path_requires_operator() {
    let (mut repo, badge) = new_runner();

    let result =
        repo.reconfigure_base_path(&Proof::of(badge), "https://n".to_string(), vec![], vec![]);
    assert_eq!(result, Err(Error::Unauthorized));
}

#[test]
fn mint_creator_badge_creates_profile_record() {
    let (repo, badge) = new_runner();

    let creator = repo.managers.creator(badge.local);
    assert_eq!(creator.name, "Creator Badge: Kansuler");
    assert_eq!(creator.creator_name, "Kansuler");
    assert_eq!(creator.creator_slug, "kansuler");
    assert_eq!(creator.funded, 0);
    assert_eq!(
        creator.key_image_url,
        "https://localhost:8080/nft/creator?donated=0&created=1970-01-01"
    );
}

#[test]
fn creator_profile_grows_with_every_donation() {
    let (mut repo, badge) = new_runner();
    let mut collection = new_collection(&mut repo, badge);

    let (trophy_1, _, _) = collection
        .donate_mint(&mut repo.managers, epoch(), 150)
        .unwrap();
    collection
        .donate_update(&mut repo.managers, epoch(), 50, &Proof::of(trophy_1))
        .unwrap();

    let creator = repo.managers.creator(badge.local);
    assert_eq!(creator.funded, 200);
    assert_eq!(
        creator.key_image_url,
        "https://localhost:8080/nft/creator?donated=200&created=1970-01-01"
    );
}

#[test]
fn mint_creator_badge_rejects_bad_names() {
    let (mut repo, _badge) = new_runner();

    let result = repo.mint_creator_badge("".to_string(), "kansuler".to_string(), epoch());
    assert_eq!(result, Err(Error::ConstraintViolation));

    let long_slug = "s".repeat(31);
    let result = repo.mint_creator_badge("Kansuler".to_string(), long_slug, epoch());
    assert_eq!(result, Err(Error::ConstraintViolation));
}

#[test]
fn new_collection_component_rejects_bad_template() {
    let (mut repo, badge) = new_runner();

    let result = repo.new_collection_component(
        &Proof::of(badge),
        "ab".to_string(),
        "Kansulers trophy".to_string(),
    );
    assert_eq!(result.err(), Some(Error::ConstraintViolation));

    let result = repo.new_collection_component(
        &Proof::of(badge),
        "Trophy name".to_string(),
        "too short".to_string(),
    );
    assert_eq!(result.err(), Some(Error::ConstraintViolation));
}
