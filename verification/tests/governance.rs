use std::cell::RefCell;

use lobster_waku_gateway::governance::{GatewayRuntime, GovernanceSnapshot, SeedDetails};
use lobster_waku_gateway::records::{
    CityId, CityMembership, CityProfile, CityRole, CityState, CityTrustState, ConversationId,
    FederationPolicy, IdentityId, MembershipState, PublicRoomRecord, RelayBudgetHint,
    SafetyAdvisory, WorldProfile,
};

fn store_ok(_room: &PublicRoomRecord) -> Result<(), String> {
    Ok(())
}

fn seeded_runtime(now_ms: u64) -> GatewayRuntime {
    let mut runtime = GatewayRuntime::new(WorldProfile {
        world_id: "world:lobster".into(),
        details: "{}".into(),
    }, "{}".into());
    runtime.seed_default_governance(now_ms, &seed_details(), store_ok).expect("seeded");
    runtime.ensure_default_world_safety(now_ms);
    runtime
}

fn city(id: &str, slug: &str, title: &str) -> CityState {
    CityState {
        profile: CityProfile {
            city_id: CityId(id.into()),
            world_id: "world:lobster".into(),
            slug: slug.into(),
            title: title.into(),
            description: "remote city".into(),
            resident_portable: true,
            approval_required: true,
            public_room_discovery_enabled: true,
            federation_policy: FederationPolicy::Open,
            relay_budget_hint: RelayBudgetHint::Balanced,
            scene: None,
            retention_policy: "{}".into(),
        },
        features: "{}".into(),
    }
}

fn seed_details() -> SeedDetails {
    SeedDetails {
        core_harbor_scene: "{\"scene\":\"core-harbor\"}".into(),
        aurora_hub_scene: "{\"scene\":\"aurora-hub\"}".into(),
        lobby_scene: "{\"scene\":\"lobby\"}".into(),
        announcements_scene: "{\"scene\":\"announcements\"}".into(),
        retention_policy: "{\"days\":30}".into(),
        features: "{\"rooms\":true}".into(),
    }
}

#[test]
fn merge_governance_snapshots_adds_upstream_city_catalog() {
    let mut primary = seeded_runtime(1_763_560_000_000).governance_snapshot();
    let mut secondary = primary.clone();

    primary
        .cities
        .retain(|city| city.profile.slug == "core-harbor");
    primary.public_rooms.retain(|room| room.slug == "lobby");

    let upstream_city_id = CityId("city:aurora".into());
    secondary.cities.push(city("city:aurora", "aurora", "Aurora"));
    secondary.memberships.push(CityMembership {
        city_id: upstream_city_id.clone(),
        resident_id: IdentityId("remote-lord".into()),
        role: CityRole::Lord,
        state: MembershipState::Active,
        joined_at_ms: 1_763_560_000_001,
        added_by: None,
    });
    secondary.public_rooms.push(PublicRoomRecord {
        room_id: ConversationId("room:city:aurora:lobby".into()),
        city_id: upstream_city_id,
        slug: "lobby".into(),
        title: "Aurora Lobby".into(),
        description: "remote room".into(),
        created_by: IdentityId("remote-lord".into()),
        created_at_ms: 1_763_560_000_002,
        frozen: false,
        scene: Some("{\"scene\":\"aurora-lobby\"}".into()),
    });

    let merged = GatewayRuntime::merge_governance_snapshots(primary, secondary);
    assert!(
        merged
            .cities
            .iter()
            .any(|city| city.profile.slug == "aurora")
    );
    assert!(
        merged
            .memberships
            .iter()
            .any(|membership| membership.resident_id.0 == "remote-lord")
    );
    assert!(
        merged
            .public_rooms
            .iter()
            .any(|room| room.room_id.0 == "room:city:aurora:lobby")
    );
}

fn slugs(snapshot: &GovernanceSnapshot) -> Vec<String> {
    snapshot.cities.iter().map(|c| c.profile.slug.clone()).collect()
}

#[test]
fn seeding_creates_two_cities_five_memberships_two_rooms() {
    let runtime = seeded_runtime(42);
    assert_eq!(runtime.cities().len(), 2);
    assert_eq!(runtime.memberships().len(), 5);
    assert_eq!(runtime.public_rooms().len(), 2);
    assert_eq!(runtime.cities()[0].profile.city_id.0, "city:core-harbor");
    assert_eq!(runtime.cities()[1].profile.title, "Aurora Hub");
    assert_eq!(runtime.cities()[0].profile.world_id, "world:lobster");
    assert_eq!(runtime.memberships()[2].resident_id.0, "tiyan");
    assert_eq!(runtime.memberships()[2].role, CityRole::Resident);
    assert_eq!(runtime.memberships()[0].added_by, None);
    assert_eq!(runtime.memberships()[1].added_by, Some(IdentityId("rsaga".into())));
    assert_eq!(runtime.public_rooms()[1].room_id.0, "room:city:aurora-hub:announcements");
    assert!(runtime.memberships().iter().all(|m| m.joined_at_ms == 42));
    assert_eq!(runtime.cities()[0].profile.scene.as_deref(), Some("{\"scene\":\"core-harbor\"}"));
    assert_eq!(runtime.cities()[1].profile.scene.as_deref(), Some("{\"scene\":\"aurora-hub\"}"));
    assert_eq!(runtime.cities()[1].profile.retention_policy, "{\"days\":30}");
    assert_eq!(runtime.cities()[0].features, "{\"rooms\":true}");
    assert_eq!(runtime.public_rooms()[0].scene.as_deref(), Some("{\"scene\":\"lobby\"}"));
    assert_eq!(runtime.public_rooms()[1].scene.as_deref(), Some("{\"scene\":\"announcements\"}"));
}

#[test]
fn seeded_world_has_steward_notice_and_trusted_cities() {
    let runtime = seeded_runtime(7);
    assert_eq!(runtime.world_stewards(), &vec![IdentityId("rsaga".into())]);
    assert_eq!(runtime.world_square_notices().len(), 1);
    let notice = &runtime.world_square_notices()[0];
    assert_eq!(notice.notice_id, "notice:welcome");
    assert_eq!(notice.tags, vec!["world".to_string(), "square".to_string()]);
    assert_eq!(runtime.city_trust().len(), 2);
    assert_eq!(runtime.city_trust()[0].city_id.0, "city:core-harbor");
    assert_eq!(runtime.city_trust()[0].reason.as_deref(), Some("seed city"));
    assert_eq!(runtime.city_trust()[1].city_id.0, "city:aurora-hub");
    assert_eq!(runtime.city_trust()[1].state, CityTrustState::Healthy);
}

#[test]
fn world_safety_defaults_are_added_once() {
    let mut runtime = seeded_runtime(7);
    runtime.ensure_default_world_safety(9);
    assert_eq!(runtime.world_stewards().len(), 1);
    assert_eq!(runtime.world_square_notices().len(), 1);
    assert_eq!(runtime.city_trust().len(), 2);
    assert_eq!(runtime.city_trust()[0].updated_at_ms, 7);
}

#[test]
fn safety_defaults_skip_missing_cities() {
    let mut runtime = GatewayRuntime::new(WorldProfile {
        world_id: "world:empty".into(),
        details: "{}".into(),
    }, "{}".into());
    runtime.ensure_default_world_safety(3);
    assert_eq!(runtime.world_stewards().len(), 1);
    assert!(runtime.city_trust().is_empty());
}

#[test]
fn reseeding_replaces_cities_by_id() {
    let mut runtime = seeded_runtime(1);
    runtime.seed_default_governance(2, &seed_details(), store_ok).expect("seeded");
    assert_eq!(runtime.cities().len(), 2);
    assert_eq!(runtime.memberships().len(), 10);
}

#[test]
fn snapshot_sorts_lists_by_key() {
    let mut seeded = seeded_runtime(5);
    seeded.upsert_city(city("city:alpha", "alpha", "Alpha"));
    let mut stored = seeded.governance_snapshot();
    stored.safety_advisories.push(SafetyAdvisory { advisory_id: "b".into(), issued_at_ms: 9, details: "{}".into() });
    stored.safety_advisories.push(SafetyAdvisory { advisory_id: "a".into(), issued_at_ms: 3, details: "{}".into() });
    let mut runtime = GatewayRuntime::new(WorldProfile { world_id: "w".into(), details: "{}".into() }, "{}".into());
    runtime.install_governance_snapshot(stored, store_ok).expect("installed");
    let snapshot = runtime.governance_snapshot();
    assert_eq!(slugs(&snapshot), vec!["alpha", "aurora-hub", "core-harbor"]);
    assert_eq!(snapshot.safety_advisories[0].advisory_id, "a");
    let ids: Vec<&str> = snapshot.memberships.iter().map(|m| m.city_id.0.as_str()).collect();
    assert_eq!(ids, vec!["city:aurora-hub", "city:aurora-hub", "city:core-harbor", "city:core-harbor", "city:core-harbor"]);
    assert_eq!(snapshot.memberships[0].resident_id.0, "builder");
    assert_eq!(snapshot.world.world_id, "world:lobster");
}

#[test]
fn merging_a_snapshot_with_itself_changes_nothing() {
    let snapshot = seeded_runtime(5).governance_snapshot();
    let merged = GatewayRuntime::merge_governance_snapshots(snapshot.clone(), snapshot.clone());
    assert_eq!(slugs(&merged), slugs(&snapshot));
    assert_eq!(merged.memberships, snapshot.memberships);
    assert_eq!(merged.public_rooms, snapshot.public_rooms);
    assert_eq!(merged.city_trust, snapshot.city_trust);
    assert_eq!(merged.world_square_notices, snapshot.world_square_notices);
}

#[test]
fn merge_keeps_primary_record_over_secondary_with_same_key() {
    let primary = seeded_runtime(5).governance_snapshot();
    let mut secondary = primary.clone();
    secondary.cities[0].profile.title = "Renamed".into();
    secondary.world.world_id = "world:mirror".into();
    let merged = GatewayRuntime::merge_governance_snapshots(primary, secondary);
    assert_eq!(merged.cities.len(), 2);
    assert!(merged.cities.iter().all(|c| c.profile.title != "Renamed"));
    assert_eq!(merged.world.world_id, "world:lobster");
}

#[test]
fn installing_a_snapshot_keys_cities_by_id() {
    let mut snapshot = seeded_runtime(5).governance_snapshot();
    let mut duplicate = snapshot.cities[0].clone();
    duplicate.profile.title = "Later".into();
    snapshot.cities.push(duplicate);
    let mut runtime = GatewayRuntime::new(WorldProfile { world_id: "other".into(), details: "{}".into() }, "{}".into());
    runtime.install_governance_snapshot(snapshot, store_ok).expect("installed");
    assert_eq!(runtime.cities().len(), 2);
    assert_eq!(runtime.cities()[0].profile.title, "Later");
    assert_eq!(runtime.world().world_id, "world:lobster");
}

#[test]
fn installing_a_published_snapshot_gives_it_back() {
    let mut runtime = GatewayRuntime::new(
        WorldProfile { world_id: "world:lobster".into(), details: "{\"title\":\"Lobster\"}".into() },
        "{\"portable\":true}".into(),
    );
    runtime.seed_default_governance(1_700_000_000_000, &seed_details(), store_ok).expect("seeded");
    runtime.ensure_default_world_safety(1_700_000_000_000);
    runtime.upsert_city(city("city:zeta", "aaa-first", "Zeta"));
    let stored = runtime.governance_snapshot();
    let mut loaded = GatewayRuntime::new(WorldProfile { world_id: "world:other".into(), details: "{}".into() }, "{}".into());
    let asked = RefCell::new(Vec::new());
    let result = loaded.install_governance_snapshot(stored.clone(), |room: &PublicRoomRecord| {
        asked.borrow_mut().push(room.room_id.0.clone());
        Ok(())
    });
    assert_eq!(result, Ok(()));
    let again = loaded.governance_snapshot();
    assert_eq!(format!("{:?}", again), format!("{:?}", stored));
    assert_eq!(loaded.cities().len(), stored.cities.len());
    assert_eq!(loaded.cities()[0].profile.city_id.0, "city:zeta");
    assert_eq!(loaded.world().world_id, "world:lobster");
    assert_eq!(loaded.portability(), "{\"portable\":true}");
    assert_eq!(loaded.world().details, "{\"title\":\"Lobster\"}");
    assert_eq!(asked.into_inner(), vec!["room:city:core-harbor:lobby", "room:city:aurora-hub:announcements"]);
}

#[test]
fn merging_the_same_mirror_twice_changes_nothing() {
    let primary = seeded_runtime(10).governance_snapshot();
    let mut mirror = GatewayRuntime::new(WorldProfile { world_id: "world:mirror".into(), details: "{}".into() }, "{}".into());
    mirror.upsert_city(city("city:aurora", "aurora", "Aurora"));
    mirror.upsert_city(city("city:core-harbor", "zzz-remote", "Remote Harbor"));
    let secondary = mirror.governance_snapshot();
    let once = GatewayRuntime::merge_governance_snapshots(primary, secondary.clone());
    let twice = GatewayRuntime::merge_governance_snapshots(once.clone(), secondary);
    assert_eq!(format!("{:?}", twice), format!("{:?}", once));
    assert_eq!(once.cities.len(), 3);
    assert_eq!(once.world.world_id, "world:lobster");
}

#[test]
fn merging_an_empty_mirror_gives_the_snapshot_back() {
    let primary = seeded_runtime(11).governance_snapshot();
    let empty = GatewayRuntime::new(WorldProfile { world_id: "world:empty".into(), details: "{}".into() }, "{}".into()).governance_snapshot();
    let merged = GatewayRuntime::merge_governance_snapshots(primary.clone(), empty);
    assert_eq!(format!("{:?}", merged), format!("{:?}", primary));
}

#[test]
fn seeding_asks_the_store_for_each_seeded_room_before_adding_it() {
    let mut runtime = GatewayRuntime::new(WorldProfile { world_id: "w".into(), details: "{}".into() }, "{}".into());
    let asked = RefCell::new(Vec::new());
    let result = runtime.seed_default_governance(3, &seed_details(), |room: &PublicRoomRecord| {
        asked.borrow_mut().push(room.room_id.0.clone());
        Ok(())
    });
    assert_eq!(result, Ok(()));
    assert_eq!(asked.into_inner(), vec!["room:city:core-harbor:lobby", "room:city:aurora-hub:announcements"]);
    assert_eq!(runtime.public_rooms().len(), 2);
}

#[test]
fn seeding_stops_where_the_store_fails_on_the_lobby() {
    let mut runtime = GatewayRuntime::new(WorldProfile { world_id: "w".into(), details: "{}".into() }, "{}".into());
    let result = runtime.seed_default_governance(3, &seed_details(), |room: &PublicRoomRecord| {
        if room.slug == "lobby" { Err("store down".to_string()) } else { Ok(()) }
    });
    assert_eq!(result, Err("store down".to_string()));
    assert_eq!(runtime.cities().len(), 1);
    assert_eq!(runtime.cities()[0].profile.city_id.0, "city:core-harbor");
    assert_eq!(runtime.memberships().len(), 3);
    assert!(runtime.public_rooms().is_empty());
}

#[test]
fn seeding_stops_where_the_store_fails_on_the_announcements() {
    let mut runtime = GatewayRuntime::new(WorldProfile { world_id: "w".into(), details: "{}".into() }, "{}".into());
    let result = runtime.seed_default_governance(3, &seed_details(), |room: &PublicRoomRecord| {
        if room.slug == "announcements" { Err("store full".to_string()) } else { Ok(()) }
    });
    assert_eq!(result, Err("store full".to_string()));
    assert_eq!(runtime.cities().len(), 2);
    assert_eq!(runtime.memberships().len(), 5);
    assert_eq!(runtime.public_rooms().len(), 1);
    assert_eq!(runtime.public_rooms()[0].room_id.0, "room:city:core-harbor:lobby");
}

#[test]
fn loading_reports_the_first_room_the_store_refuses() {
    let stored = seeded_runtime(8).governance_snapshot();
    let mut runtime = GatewayRuntime::new(WorldProfile { world_id: "w".into(), details: "{}".into() }, "{}".into());
    let asked = RefCell::new(0usize);
    let result = runtime.install_governance_snapshot(stored.clone(), |_room: &PublicRoomRecord| {
        *asked.borrow_mut() += 1;
        Err("store down".to_string())
    });
    assert_eq!(result, Err("store down".to_string()));
    assert_eq!(asked.into_inner(), 1);
    assert_eq!(format!("{:?}", runtime.governance_snapshot()), format!("{:?}", stored));
}

#[test]
fn merge_keeps_the_primary_portability() {
    let mut primary = seeded_runtime(1).governance_snapshot();
    primary.portability = "{\"mode\":\"primary\"}".into();
    let mut secondary = primary.clone();
    secondary.portability = "{\"mode\":\"mirror\"}".into();
    let merged = GatewayRuntime::merge_governance_snapshots(primary, secondary);
    assert_eq!(merged.portability, "{\"mode\":\"primary\"}");
}
