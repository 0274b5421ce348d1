use backeum::collection::Collection;
use backeum::credentials::{GlobalId, Proof};
use backeum::dates::Date;
use backeum::errors::Error;
use backeum::managers::TROPHY_RESOURCE;
use backeum::repository::Repository;
use backeum::util::generate_created_string;

const OWNER_BADGE: u64 = 900;
const DAPP_DEFINITION: u64 = 901;

fn epoch() -> Date {
    Date { year: 1970, month: 1, day: 1 }
}

fn date(year: u32, month: u8, day: u8) -> Date {
    Date { year, month, day }
}

fn new_runner() -> (Repository, GlobalId) {
    let mut repo = Repository::new(
        "https://localhost:8080".to_string(),
        OWNER_BADGE,
        DAPP_DEFINITION,
    );
    let badge = repo
        .mint_creator_badge("Kansuler".to_string(), "kansuler".to_string(), epoch())
        .unwrap();
    (repo, badge)
}

fn new_collection(repo: &mut Repository, badge: GlobalId) -> Collection {
    repo.new_collection_component(
        &Proof::of(badge),
        "Trophy name".to_string(),
        "Kansulers trophy".to_string(),
    )
    .unwrap()
}

#[test]
fn donate_mint_success() {
    let (mut repo, badge) = new_runner();
    let mut collection = new_collection(&mut repo, badge);

    let (trophy_id, thanks, membership_id) = collection
        .donate_mint(&mut repo.managers, epoch(), 150)
        .unwrap();
    assert_eq!(thanks, 150);
    assert_eq!(trophy_id.resource, TROPHY_RESOURCE);

    let trophy = repo.managers.trophy(trophy_id.local);
    assert_eq!(trophy.collection_id, collection.collection_id);
    assert_eq!(trophy.name, "Trophy name");
    assert_eq!(trophy.description, "Kansulers trophy");
    assert_eq!(trophy.creator_slug, "kansuler");
    assert_eq!(trophy.creator_name, "Kansuler");
    assert_eq!(trophy.info_url, "https://localhost:8080/p/kansuler");
    assert_eq!(generate_created_string(trophy.created), "1970-01-01");
    assert_eq!(trophy.donated, 150);
    assert_eq!(
        trophy.key_image_url,
        format!(
            "https://localhost:8080/nft/collection/{}?donated=150&created=1970-01-01",
            trophy.collection_id
        )
    );

    let membership = repo.managers.membership(membership_id.local);
    assert_eq!(membership.name, "Membership: Kansuler");
    assert_eq!(membership.info_url, "https://localhost:8080/p/kansuler");
    assert_eq!(generate_created_string(membership.created), "1970-01-01");
    assert_eq!(membership.donated, 150);
    assert_eq!(
        membership.key_image_url,
        format!(
            "https://localhost:8080/nft/membership/{}?donated=150&created=1970-01-01",
            membership.creator_slug
        )
    );

    // The gross 150 left the donor: 6 went to the fee pool, 144 to the
    // donation pool.
    assert_eq!(collection.donations, 144);
    assert_eq!(collection.fees, 6);
}

#[test]
fn donate_mint_with_membership_success() {
    let (mut repo, badge) = new_runner();
    let mut collection = new_collection(&mut repo, badge);

    let (_, _, membership_id) = collection
        .donate_mint(&mut repo.managers, epoch(), 150)
        .unwrap();

    let (trophy_id, thanks) = collection
        .donate_mint_with_membership(&mut repo.managers, epoch(), 150, &Proof::of(membership_id))
        .unwrap();
    assert_eq!(thanks, 150);

    // Two trophies now exist, but still only the one membership.
    assert_eq!(repo.managers.trophies.len(), 2);
    assert_eq!(repo.managers.memberships.len(), 1);

    let trophy = repo.managers.trophy(trophy_id.local);
    assert_eq!(trophy.collection_id, collection.collection_id);
    assert_eq!(trophy.name, "Trophy name");
    assert_eq!(trophy.description, "Kansulers trophy");
    assert_eq!(trophy.creator_slug, "kansuler");
    assert_eq!(trophy.creator_name, "Kansuler");
    assert_eq!(trophy.info_url, "https://localhost:8080/p/kansuler");
    assert_eq!(generate_created_string(trophy.created), "1970-01-01");
    assert_eq!(trophy.donated, 150);
    assert_eq!(
        trophy.key_image_url,
        format!(
            "https://localhost:8080/nft/collection/{}?donated=150&created=1970-01-01",
            trophy.collection_id
        )
    );

    let membership = repo.managers.membership(membership_id.local);
    assert_eq!(membership.name, "Membership: Kansuler");
    assert_eq!(membership.info_url, "https://localhost:8080/p/kansuler");
    assert_eq!(generate_created_string(membership.created), "1970-01-01");
    assert_eq!(membership.donated, 300);
    assert_eq!(membership.transactions.len(), 2);
    assert_eq!(
        membership.key_image_url,
        format!(
            "https://localhost:8080/nft/membership/{}?donated=300&created=1970-01-01",
            membership.creator_slug
        )
    );

    assert_eq!(collection.donations, 288);
    assert_eq!(collection.fees, 12);
}

#[test]
fn donate_mint_failure_too_low_amount() {
    let (mut repo, badge) = new_runner();
    let mut collection = new_collection(&mut repo, badge);

    let result = collection.donate_mint(&mut repo.managers, epoch(), 0);
    assert_eq!(result, Err(Error::ConstraintViolation));

    // Nothing was minted and nothing moved.
    assert_eq!(repo.managers.trophies.len(), 0);
    assert_eq!(repo.managers.memberships.len(), 0);
    assert_eq!(collection.donations, 0);
    assert_eq!(collection.fees, 0);
}

#[test]
fn donate_mint_failure_closed_collection() {
    let (mut repo, badge) = new_runner();
    let mut collection = new_collection(&mut repo, badge);

    let swept = collection.close_collection(&Proof::of(badge), epoch()).unwrap();
    assert_eq!(swept, 0);

    let result = collection.donate_mint(&mut repo.managers, epoch(), 150);
    assert_eq!(result, Err(Error::CollectionClosed));

    assert_eq!(repo.managers.trophies.len(), 0);
    assert_eq!(collection.donations, 0);
}

#[test]
fn donate_update_success() {
    let (mut repo, badge) = new_runner();
    let mut collection = new_collection(&mut repo, badge);

    let (trophy_id, _, _) = collection
        .donate_mint(&mut repo.managers, epoch(), 150)
        .unwrap();

    let (thanks, _membership_id) = collection
        .donate_update(&mut repo.managers, epoch(), 150, &Proof::of(trophy_id))
        .unwrap();
    assert_eq!(thanks, 150);

    let trophy = repo.managers.trophy(trophy_id.local);
    assert_eq!(trophy.collection_id, collection.collection_id);
    assert_eq!(trophy.name, "Trophy name");
    assert_eq!(trophy.description, "Kansulers trophy");
    assert_eq!(trophy.creator_slug, "kansuler");
    assert_eq!(trophy.creator_name, "Kansuler");
    assert_eq!(trophy.info_url, "https://localhost:8080/p/kansuler");
    assert_eq!(generate_created_string(trophy.created), "1970-01-01");
    assert_eq!(trophy.donated, 300);
    assert_eq!(trophy.transactions.len(), 2);
    assert_eq!(
        trophy.key_image_url,
        format!(
            "https://localhost:8080/nft/collection/{}?donated=300&created=1970-01-01",
            trophy.collection_id
        )
    );

    assert_eq!(collection.donations, 288);
}

#[test]
fn donate_update_with_membership_success() {
    let (mut repo, badge) = new_runner();
    let mut collection = new_collection(&mut repo, badge);

    let (trophy_id, _, membership_id) = collection
        .donate_mint(&mut repo.managers, epoch(), 150)
        .unwrap();

    let thanks = collection
        .donate_update_with_membership(
            &mut repo.managers,
            epoch(),
            150,
            &Proof::of(trophy_id),
            &Proof::of(membership_id),
        )
        .unwrap();
    assert_eq!(thanks, 150);

    let trophy = repo.managers.trophy(trophy_id.local);
    assert_eq!(trophy.donated, 300);
    assert_eq!(generate_created_string(trophy.created), "1970-01-01");
    assert_eq!(
        trophy.key_image_url,
        format!(
            "https://localhost:8080/nft/collection/{}?donated=300&created=1970-01-01",
            trophy.collection_id
        )
    );

    let membership = repo.managers.membership(membership_id.local);
    assert_eq!(membership.name, "Membership: Kansuler");
    assert_eq!(membership.donated, 300);
    assert_eq!(generate_created_string(membership.created), "1970-01-01");
    assert_eq!(
        membership.key_image_url,
        format!(
            "https://localhost:8080/nft/membership/{}?donated=300&created=1970-01-01",
            membership.creator_slug
        )
    );
}

#[test]
fn close_success() {
    let (mut repo, badge) = new_runner();
    let mut collection = new_collection(&mut repo, badge);

    collection
        .donate_mint(&mut repo.managers, epoch(), 150)
        .unwrap();
    assert_eq!(collection.donations, 144);

    // Closing sweeps the donation pool to the owner in the same call.
    let swept = collection.close_collection(&Proof::of(badge), epoch()).unwrap();
    assert_eq!(swept, 144);
    assert_eq!(collection.donations, 0);

    let result = collection.donate_mint(&mut repo.managers, epoch(), 100);
    assert_eq!(result, Err(Error::CollectionClosed));
}

#[test]
fn close_failure_auth() {
    let (mut repo, badge) = new_runner();
    let other_badge = repo
        .mint_creator_badge("Someone".to_string(), "someone".to_string(), epoch())
        .unwrap();
    let mut collection = new_collection(&mut repo, badge);

    let result = collection.close_collection(&Proof::of(other_badge), epoch());
    assert_eq!(result, Err(Error::Unauthorized));
    assert_eq!(collection.closed, None);
}

#[test]
fn close_failure_closed() {
    let (mut repo, badge) = new_runner();
    let mut collection = new_collection(&mut repo, badge);

    collection.close_collection(&Proof::of(badge), epoch()).unwrap();

    let result = collection.close_collection(&Proof::of(badge), epoch());
    assert_eq!(result, Err(Error::AlreadyClosed));
}

#[test]
fn close_failure_no_deposit_withdraw_funds() {
    let (mut repo, badge) = new_runner();
    let mut collection = new_collection(&mut repo, badge);

    collection
        .donate_mint(&mut repo.managers, epoch(), 150)
        .unwrap();

    // The close hands back the entire pool at once: nothing can be left
    // behind, and nothing remains to withdraw afterwards.
    let swept = collection.close_collection(&Proof::of(badge), epoch()).unwrap();
    assert_eq!(swept, 144);
    let later = collection.withdraw_donations(&Proof::of(badge)).unwrap();
    assert_eq!(later, 0);
}

#[test]
fn withdraw_donations_success() {
    let (mut repo, badge) = new_runner();
    let mut collection = new_collection(&mut repo, badge);

    let withdrawn = collection.withdraw_donations(&Proof::of(badge)).unwrap();
    assert_eq!(withdrawn, 0);
}

#[test]
fn withdraw_donations_failure_auth() {
    let (mut repo, badge_1) = new_runner();
    let badge_2 = repo
        .mint_creator_badge("Kansuler".to_string(), "kansuler".to_string(), epoch())
        .unwrap();
    let mut collection = new_collection(&mut repo, badge_1);

    let result = collection.withdraw_donations(&Proof::of(badge_2));
    assert_eq!(result, Err(Error::Unauthorized));
}

#[test]
fn donate_update_failure_identity_mismatch() {
    let (mut repo, badge_1) = new_runner();
    let badge_2 = repo
        .mint_creator_badge("Other".to_string(), "other".to_string(), epoch())
        .unwrap();
    let mut collection_1 = new_collection(&mut repo, badge_1);
    let mut collection_2 = new_collection(&mut repo, badge_2);

    let (trophy_id, _, _) = collection_1
        .donate_mint(&mut repo.managers, epoch(), 150)
        .unwrap();

    // A trophy of one collection cannot be updated through another.
    let result = collection_2.donate_update(&mut repo.managers, epoch(), 150, &Proof::of(trophy_id));
    assert_eq!(result, Err(Error::IdentityMismatch));
    assert_eq!(repo.managers.trophy(trophy_id.local).donated, 150);
}

#[test]
fn donate_mint_with_membership_failure_identity_mismatch() {
    let (mut repo, badge_1) = new_runner();
    let badge_2 = repo
        .mint_creator_badge("Other".to_string(), "other".to_string(), epoch())
        .unwrap();
    let mut collection_1 = new_collection(&mut repo, badge_1);
    let mut collection_2 = new_collection(&mut repo, badge_2);

    let (_, _, membership_id) = collection_1
        .donate_mint(&mut repo.managers, epoch(), 150)
        .unwrap();

    let result = collection_2.donate_mint_with_membership(
        &mut repo.managers,
        epoch(),
        150,
        &Proof::of(membership_id),
    );
    assert_eq!(result, Err(Error::IdentityMismatch));
    assert_eq!(repo.managers.membership(membership_id.local).donated, 150);
}

#[test]
fn donate_update_failure_wrong_class() {
    let (mut repo, badge) = new_runner();
    let mut collection = new_collection(&mut repo, badge);

    let (_, _, membership_id) = collection
        .donate_mint(&mut repo.managers, epoch(), 150)
        .unwrap();

    // A membership credential cannot attest a trophy.
    let result =
        collection.donate_update(&mut repo.managers, epoch(), 150, &Proof::of(membership_id));
    assert_eq!(result, Err(Error::WrongClass));
}

#[test]
fn donated_total_matches_transaction_log() {
    let (mut repo, badge) = new_runner();
    let mut collection = new_collection(&mut repo, badge);

    let (trophy_id, _, membership_id) = collection
        .donate_mint(&mut repo.managers, epoch(), 70)
        .unwrap();
    collection
        .donate_update_with_membership(
            &mut repo.managers,
            date(1970, 1, 2),
            30,
            &Proof::of(trophy_id),
            &Proof::of(membership_id),
        )
        .unwrap();

    let trophy = repo.managers.trophy(trophy_id.local);
    let logged: u128 = trophy.transactions.iter().map(|t| t.amount).sum();
    assert_eq!(trophy.donated, logged);
    assert_eq!(trophy.donated, 100);

    let membership = repo.managers.membership(membership_id.local);
    let logged: u128 = membership.transactions.iter().map(|t| t.amount).sum();
    assert_eq!(membership.donated, logged);
}

#[test]
fn scenario_fresh_mint_derives_url() {
    let mut repo = Repository::new("https://h".to_string(), OWNER_BADGE, DAPP_DEFINITION);
    let badge = repo
        .mint_creator_badge("Kansuler".to_string(), "kansuler".to_string(), epoch())
        .unwrap();
    let mut collection = new_collection(&mut repo, badge);

    let (trophy_id, _, _) = collection
        .donate_mint(&mut repo.managers, date(2024, 6, 1), 150)
        .unwrap();

    let trophy = repo.managers.trophy(trophy_id.local);
    assert_eq!(trophy.donated, 150);
    assert_eq!(
        trophy.key_image_url,
        format!(
            "https://h/nft/collection/{}?donated=150&created=2024-06-01",
            trophy.collection_id
        )
    );
}

#[test]
fn scenario_update_reflects_new_total() {
    let mut repo = Repository::new("https://h".to_string(), OWNER_BADGE, DAPP_DEFINITION);
    let badge = repo
        .mint_creator_badge("Kansuler".to_string(), "kansuler".to_string(), epoch())
        .unwrap();
    let mut collection = new_collection(&mut repo, badge);

    let (trophy_id, _, _) = collection
        .donate_mint(&mut repo.managers, date(2024, 6, 1), 150)
        .unwrap();
    collection
        .donate_update(&mut repo.managers, date(2024, 6, 2), 150, &Proof::of(trophy_id))
        .unwrap();

    let trophy = repo.managers.trophy(trophy_id.local);
    assert_eq!(trophy.donated, 300);
    // The url keeps the original creation date but reflects the new total.
    assert_eq!(
        trophy.key_image_url,
        format!(
            "https://h/nft/collection/{}?donated=300&created=2024-06-01",
            trophy.collection_id
        )
    );
}

#[test]
fn scenario_closed_collection_rejects_mint() {
    let (mut repo, badge) = new_runner();
    let mut collection = new_collection(&mut repo, badge);

    collection.close_collection(&Proof::of(badge), epoch()).unwrap();

    let result = collection.donate_mint(&mut repo.managers, epoch(), 150);
    assert_eq!(result, Err(Error::CollectionClosed));
}
