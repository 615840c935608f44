//! The gateway's governance state: its world, cities and their memberships,
//! public rooms and safety records; the snapshots it publishes of them and
//! the merge of its own snapshot with a mirrored one.
use vstd::prelude::*;

use crate::order::{
    lemma_merge_respects, lemma_stable_sort_is_sorted_permutation, merge_respects,
    sorted_permutation, is_sorted, keys_unique, lemma_merge_records_laws, lemma_merge_records_self,
    lemma_stable_sort_permutes, lemma_stable_sort_sorted, lemma_stable_sort_sorted_fixed,
    lemma_stable_sort_unique, lemma_merge_records_again, merge_record_lists, merge_records,
    has_key, sort_records, stable_sort, views_of, RecordKey,
};
use crate::records::{
    texts_of, CityTrustState, CityTrustView, NoticeView, CityId, CityProfile, CityRole, CityView, ConversationId, FederationPolicy, MembershipState,
    MembershipView, PublicRoomView, RelayBudgetHint, AdvisoriesByIssue, BlacklistByKindHashTime, CitiesBySlugAndId, CityState,
    CityTrustRecord, CityMembership, Duplicate, IdentitiesByText, IdentityId,
    MembershipsByCityResidentTime, NoticesByPosting, PublicRoomRecord, RegistrationBlacklistEntry,
    ReportsBySubmission, ResidentSanction, RoomsByCreation, SafetyAdvisory, SafetyReport,
    SanctionsByIssue, TrustByCity, WorldProfile, WorldSquareNotice,
};

verus! {

/// Everything the gateway publishes about how its world is governed.
#[derive(Debug)]
pub struct GovernanceSnapshot {
    pub world: WorldProfile,
    /// The world's portability settings, as their JSON text; the library
    /// carries them without reading them.
    pub portability: String,
    pub cities: Vec<CityState>,
    pub memberships: Vec<CityMembership>,
    pub public_rooms: Vec<PublicRoomRecord>,
    pub world_stewards: Vec<IdentityId>,
    pub city_trust: Vec<CityTrustRecord>,
    pub world_square_notices: Vec<WorldSquareNotice>,
    pub safety_advisories: Vec<SafetyAdvisory>,
    pub safety_reports: Vec<SafetyReport>,
    pub resident_sanctions: Vec<ResidentSanction>,
    pub registration_blacklist: Vec<RegistrationBlacklistEntry>,
}

pub struct SnapshotView {
    pub world: <WorldProfile as View>::V,
    pub portability: Seq<char>,
    pub cities: Seq<<CityState as View>::V>,
    pub memberships: Seq<<CityMembership as View>::V>,
    pub public_rooms: Seq<<PublicRoomRecord as View>::V>,
    pub world_stewards: Seq<Seq<char>>,
    pub city_trust: Seq<<CityTrustRecord as View>::V>,
    pub world_square_notices: Seq<<WorldSquareNotice as View>::V>,
    pub safety_advisories: Seq<(Seq<char>, u64, Seq<char>)>,
    pub safety_reports: Seq<(Seq<char>, u64, Seq<char>)>,
    pub resident_sanctions: Seq<(Seq<char>, u64, Seq<char>)>,
    pub registration_blacklist: Seq<<RegistrationBlacklistEntry as View>::V>,
}

impl View for GovernanceSnapshot {
    type V = SnapshotView;

    open spec fn view(&self) -> SnapshotView {
        SnapshotView {
            world: self.world@,
            portability: self.portability@,
            cities: views_of(self.cities@),
            memberships: views_of(self.memberships@),
            public_rooms: views_of(self.public_rooms@),
            world_stewards: views_of(self.world_stewards@),
            city_trust: views_of(self.city_trust@),
            world_square_notices: views_of(self.world_square_notices@),
            safety_advisories: views_of(self.safety_advisories@),
            safety_reports: views_of(self.safety_reports@),
            resident_sanctions: views_of(self.resident_sanctions@),
            registration_blacklist: views_of(self.registration_blacklist@),
        }
    }
}

/// The merge of two snapshots: the primary world, and every list merged by
/// its key and kept in its order.
pub open spec fn merge_snapshot_views(p: SnapshotView, s: SnapshotView) -> SnapshotView {
    SnapshotView {
        world: p.world,
        portability: p.portability,
        cities: merge_records::<CityState, CitiesBySlugAndId>(p.cities, s.cities),
        memberships: merge_records::<CityMembership, MembershipsByCityResidentTime>(
            p.memberships,
            s.memberships,
        ),
        public_rooms: merge_records::<PublicRoomRecord, RoomsByCreation>(
            p.public_rooms,
            s.public_rooms,
        ),
        world_stewards: merge_records::<IdentityId, IdentitiesByText>(
            p.world_stewards,
            s.world_stewards,
        ),
        city_trust: merge_records::<CityTrustRecord, TrustByCity>(p.city_trust, s.city_trust),
        world_square_notices: merge_records::<WorldSquareNotice, NoticesByPosting>(
            p.world_square_notices,
            s.world_square_notices,
        ),
        safety_advisories: merge_records::<SafetyAdvisory, AdvisoriesByIssue>(
            p.safety_advisories,
            s.safety_advisories,
        ),
        safety_reports: merge_records::<SafetyReport, ReportsBySubmission>(
            p.safety_reports,
            s.safety_reports,
        ),
        resident_sanctions: merge_records::<ResidentSanction, SanctionsByIssue>(
            p.resident_sanctions,
            s.resident_sanctions,
        ),
        registration_blacklist: merge_records::<
            RegistrationBlacklistEntry,
            BlacklistByKindHashTime,
        >(p.registration_blacklist, s.registration_blacklist),
    }
}

/// Every list of the snapshot is in the order a merge keeps it in.
pub open spec fn merge_ordered(v: SnapshotView) -> bool {
    &&& is_sorted::<CityState, CitiesBySlugAndId>(v.cities)
    &&& is_sorted::<CityMembership, MembershipsByCityResidentTime>(v.memberships)
    &&& is_sorted::<PublicRoomRecord, RoomsByCreation>(v.public_rooms)
    &&& is_sorted::<IdentityId, IdentitiesByText>(v.world_stewards)
    &&& is_sorted::<CityTrustRecord, TrustByCity>(v.city_trust)
    &&& is_sorted::<WorldSquareNotice, NoticesByPosting>(v.world_square_notices)
    &&& is_sorted::<SafetyAdvisory, AdvisoriesByIssue>(v.safety_advisories)
    &&& is_sorted::<SafetyReport, ReportsBySubmission>(v.safety_reports)
    &&& is_sorted::<ResidentSanction, SanctionsByIssue>(v.resident_sanctions)
    &&& is_sorted::<RegistrationBlacklistEntry, BlacklistByKindHashTime>(
        v.registration_blacklist,
    )
}

pub fn duplicate_records<T: Duplicate>(v: &Vec<T>) -> (r: Vec<T>)
    ensures
        views_of(r@) == views_of(v@),
{
    let mut r: Vec<T> = Vec::new();
    let mut i: usize = 0;
    while i < v.len()
        invariant
            i <= v@.len(),
            views_of(r@) == views_of(v@).take(i as int),
        decreases v@.len() - i,
    {
        let ghost before = r@;
        let c = v[i].duplicate();
        r.push(c);
        i = i + 1;
        assert(views_of(r@) =~= views_of(before).push(c@));
        assert(views_of(r@) =~= views_of(v@).take(i as int));
    }
    assert(views_of(v@).take(i as int) =~= views_of(v@));
    r
}

impl Clone for GovernanceSnapshot {
    fn clone(&self) -> (r: Self)
        ensures
            r@ == self@,
    {
        GovernanceSnapshot {
            world: self.world.duplicate(),
            portability: self.portability.clone(),
            cities: duplicate_records(&self.cities),
            memberships: duplicate_records(&self.memberships),
            public_rooms: duplicate_records(&self.public_rooms),
            world_stewards: duplicate_records(&self.world_stewards),
            city_trust: duplicate_records(&self.city_trust),
            world_square_notices: duplicate_records(&self.world_square_notices),
            safety_advisories: duplicate_records(&self.safety_advisories),
            safety_reports: duplicate_records(&self.safety_reports),
            resident_sanctions: duplicate_records(&self.resident_sanctions),
            registration_blacklist: duplicate_records(&self.registration_blacklist),
        }
    }
}

/// The governance part of the gateway runtime.
#[derive(Debug)]
pub struct GatewayRuntime {
    pub(crate) world: WorldProfile,
    /// The world's portability settings, as their JSON text.
    pub(crate) portability: String,
    /// The cities, each under its own id (no id occurs twice).
    pub(crate) cities: Vec<CityState>,
    pub(crate) memberships: Vec<CityMembership>,
    pub(crate) public_rooms: Vec<PublicRoomRecord>,
    pub(crate) world_stewards: Vec<IdentityId>,
    pub(crate) city_trust: Vec<CityTrustRecord>,
    pub(crate) world_square_notices: Vec<WorldSquareNotice>,
    pub(crate) safety_advisories: Vec<SafetyAdvisory>,
    pub(crate) safety_reports: Vec<SafetyReport>,
    pub(crate) resident_sanctions: Vec<ResidentSanction>,
    pub(crate) registration_blacklist: Vec<RegistrationBlacklistEntry>,
}

impl GatewayRuntime {
    /// No two cities of the runtime share an id.
    #[verifier::type_invariant]
    spec fn cities_unique(self) -> bool {
        cities_keyed(views_of(self.cities@))
    }
}

/// No two cities share an id.
pub open spec fn cities_keyed(cities: Seq<<CityState as View>::V>) -> bool {
    keys_unique::<CityState>(cities)
}

/// The cities after storing `city` under its id: it replaces the city with
/// that id, or comes last when there is none.
pub open spec fn upsert_city(
    cities: Seq<<CityState as View>::V>,
    city: <CityState as View>::V,
) -> Seq<<CityState as View>::V> {
    if has_key::<CityState>(cities, city) {
        let i = choose|i: int| 0 <= i < cities.len() && cities[i].city_id == city.city_id;
        cities.update(i, city)
    } else {
        cities.push(city)
    }
}

/// Stores `city` in `cities` under its id (replacing the city with that id).
fn store_city(cities: &mut Vec<CityState>, city: CityState)
requires
    cities_keyed(views_of(old(cities)@)),
ensures
    views_of(final(cities)@) == upsert_city(views_of(old(cities)@), city@),
    cities_keyed(views_of(final(cities)@)),
{
    let ghost before = views_of(cities@);
    let mut i: usize = 0;
    while i < cities.len()
        invariant
            i <= cities@.len(),
            before == views_of(cities@),
            *cities == *old(cities),
            cities_keyed(before),
            forall|k: int| 0 <= k < i ==> before[k].city_id != city@.city_id,
        decreases cities@.len() - i,
    {
        if cities[i].profile.city_id.0 == city.profile.city_id.0 {
            proof {
                assert(before[i as int].city_id == city@.city_id);
                assert(has_key::<CityState>(before, city@));
                let j = choose|j: int| 0 <= j < before.len() && before[j].city_id == city@.city_id;
                if j != i {
                    if j < i {
                        assert(before[j].city_id != city@.city_id);
                    } else {
                        assert(!CityState::same_key(before[i as int], before[j]));
                    }
                }
            }
            let ghost cities_before = cities@;
            cities.set(i, city);
            proof {
                assert(views_of(cities@) =~= before.update(i as int, city@));
                let after = views_of(cities@);
                assert forall|a: int, b: int| 0 <= a < b < after.len() implies !CityState::same_key(
                    after[a],
                    after[b],
                ) by {
                    if a != i && b != i {
                        assert(after[a] == before[a] && after[b] == before[b]);
                    } else if a == i {
                        assert(after[b] == before[b]);
                        assert(!CityState::same_key(before[a], before[b]));
                    } else {
                        assert(after[a] == before[a]);
                        assert(!CityState::same_key(before[a], before[b]));
                    }
                }
            }
            return;
        }
        i = i + 1;
    }
    proof {
        assert(!has_key::<CityState>(before, city@));
    }
    cities.push(city);
    proof {
        let after = views_of(cities@);
        assert(after =~= before.push(city@));
        assert forall|a: int, b: int| 0 <= a < b < after.len() implies !CityState::same_key(
            after[a],
            after[b],
        ) by {
            if b == before.len() {
                assert(after[a] == before[a]);
            }
        }
    }
}

impl GatewayRuntime {
    /// A runtime with the given world and portability settings and no
    /// governance records.
    pub fn new(world: WorldProfile, portability: String) -> (r: Self)
        ensures
            r@.world == world@,
            r@.portability == portability@,
            r@.cities.len() == 0,
            r@.memberships.len() == 0,
            r@.public_rooms.len() == 0,
            r@.world_stewards.len() == 0,
            r@.city_trust.len() == 0,
            r@.world_square_notices.len() == 0,
            r@.safety_advisories.len() == 0,
            r@.safety_reports.len() == 0,
            r@.resident_sanctions.len() == 0,
            r@.registration_blacklist.len() == 0,
    {
        GatewayRuntime {
            world,
            portability,
            cities: Vec::new(),
            memberships: Vec::new(),
            public_rooms: Vec::new(),
            world_stewards: Vec::new(),
            city_trust: Vec::new(),
            world_square_notices: Vec::new(),
            safety_advisories: Vec::new(),
            safety_reports: Vec::new(),
            resident_sanctions: Vec::new(),
            registration_blacklist: Vec::new(),
        }
    }

    /// Stores `city` under its id (replacing the city with that id).
    pub fn upsert_city(&mut self, city: CityState)
        ensures
            final(self)@ == (SnapshotView { cities: upsert_city(old(self)@.cities, city@), ..old(self)@ }),
            cities_keyed(final(self)@.cities),
    {
        proof {
            use_type_invariant(&*self);
        }
        let mut cities: Vec<CityState> = Vec::new();
        std::mem::swap(&mut cities, &mut self.cities);
        store_city(&mut cities, city);
        self.cities = cities;
    }

    /// Merges a primary snapshot with a secondary one (such as a mirrored
    /// world): the primary world is kept; in every list each primary record
    /// is kept and each secondary record whose key is new is added; every
    /// list is then sorted by its key.
    pub fn merge_governance_snapshots(
        primary: GovernanceSnapshot,
        secondary: GovernanceSnapshot,
    ) -> (r: GovernanceSnapshot)
        ensures
            r@ == merge_snapshot_views(primary@, secondary@),
    {
        let GovernanceSnapshot {
            world,
            portability,
            cities: p_cities,
            memberships: p_memberships,
            public_rooms: p_rooms,
            world_stewards: p_stewards,
            city_trust: p_trust,
            world_square_notices: p_notices,
            safety_advisories: p_advisories,
            safety_reports: p_reports,
            resident_sanctions: p_sanctions,
            registration_blacklist: p_blacklist,
        } = primary;
        let GovernanceSnapshot {
            world: _,
            portability: _,
            cities: s_cities,
            memberships: s_memberships,
            public_rooms: s_rooms,
            world_stewards: s_stewards,
            city_trust: s_trust,
            world_square_notices: s_notices,
            safety_advisories: s_advisories,
            safety_reports: s_reports,
            resident_sanctions: s_sanctions,
            registration_blacklist: s_blacklist,
        } = secondary;
        GovernanceSnapshot {
            world,
            portability,
            cities: merge_record_lists::<CityState, CitiesBySlugAndId>(p_cities, s_cities),
            memberships: merge_record_lists::<CityMembership, MembershipsByCityResidentTime>(
                p_memberships,
                s_memberships,
            ),
            public_rooms: merge_record_lists::<PublicRoomRecord, RoomsByCreation>(p_rooms, s_rooms),
            world_stewards: merge_record_lists::<IdentityId, IdentitiesByText>(
                p_stewards,
                s_stewards,
            ),
            city_trust: merge_record_lists::<CityTrustRecord, TrustByCity>(p_trust, s_trust),
            world_square_notices: merge_record_lists::<WorldSquareNotice, NoticesByPosting>(
                p_notices,
                s_notices,
            ),
            safety_advisories: merge_record_lists::<SafetyAdvisory, AdvisoriesByIssue>(
                p_advisories,
                s_advisories,
            ),
            safety_reports: merge_record_lists::<SafetyReport, ReportsBySubmission>(
                p_reports,
                s_reports,
            ),
            resident_sanctions: merge_record_lists::<ResidentSanction, SanctionsByIssue>(
                p_sanctions,
                s_sanctions,
            ),
            registration_blacklist: merge_record_lists::<
                RegistrationBlacklistEntry,
                BlacklistByKindHashTime,
            >(p_blacklist, s_blacklist),
        }
    }
}

impl View for GatewayRuntime {
    type V = SnapshotView;

    /// The runtime's state, list by list, in the order it holds it.
    closed spec fn view(&self) -> SnapshotView {
        SnapshotView {
            world: self.world@,
            portability: self.portability@,
            cities: views_of(self.cities@),
            memberships: views_of(self.memberships@),
            public_rooms: views_of(self.public_rooms@),
            world_stewards: views_of(self.world_stewards@),
            city_trust: views_of(self.city_trust@),
            world_square_notices: views_of(self.world_square_notices@),
            safety_advisories: views_of(self.safety_advisories@),
            safety_reports: views_of(self.safety_reports@),
            resident_sanctions: views_of(self.resident_sanctions@),
            registration_blacklist: views_of(self.registration_blacklist@),
        }
    }
}

/// The snapshot the runtime publishes of a state: each list sorted by its
/// key (cities by slug only).
pub open spec fn snapshot_of(v: SnapshotView) -> SnapshotView {
    SnapshotView {
        world: v.world,
        portability: v.portability,
        cities: stable_sort::<CityState, CitiesBySlugAndId>(v.cities),
        memberships: stable_sort::<CityMembership, MembershipsByCityResidentTime>(v.memberships),
        public_rooms: stable_sort::<PublicRoomRecord, RoomsByCreation>(v.public_rooms),
        world_stewards: stable_sort::<IdentityId, IdentitiesByText>(v.world_stewards),
        city_trust: stable_sort::<CityTrustRecord, TrustByCity>(v.city_trust),
        world_square_notices: stable_sort::<WorldSquareNotice, NoticesByPosting>(
            v.world_square_notices,
        ),
        safety_advisories: stable_sort::<SafetyAdvisory, AdvisoriesByIssue>(v.safety_advisories),
        safety_reports: stable_sort::<SafetyReport, ReportsBySubmission>(v.safety_reports),
        resident_sanctions: stable_sort::<ResidentSanction, SanctionsByIssue>(v.resident_sanctions),
        registration_blacklist: stable_sort::<RegistrationBlacklistEntry, BlacklistByKindHashTime>(
            v.registration_blacklist,
        ),
    }
}

impl GatewayRuntime {
    /// The snapshot of the runtime's governance state, every list sorted by
    /// its key.
    pub fn governance_snapshot(&self) -> (r: GovernanceSnapshot)
        ensures
            r@ == snapshot_of(self@),
    {
        GovernanceSnapshot {
            world: self.world.duplicate(),
            portability: self.portability.clone(),
            cities: sort_records::<CityState, CitiesBySlugAndId>(duplicate_records(&self.cities)),
            memberships: sort_records::<CityMembership, MembershipsByCityResidentTime>(
                duplicate_records(&self.memberships),
            ),
            public_rooms: sort_records::<PublicRoomRecord, RoomsByCreation>(
                duplicate_records(&self.public_rooms),
            ),
            world_stewards: sort_records::<IdentityId, IdentitiesByText>(
                duplicate_records(&self.world_stewards),
            ),
            city_trust: sort_records::<CityTrustRecord, TrustByCity>(
                duplicate_records(&self.city_trust),
            ),
            world_square_notices: sort_records::<WorldSquareNotice, NoticesByPosting>(
                duplicate_records(&self.world_square_notices),
            ),
            safety_advisories: sort_records::<SafetyAdvisory, AdvisoriesByIssue>(
                duplicate_records(&self.safety_advisories),
            ),
            safety_reports: sort_records::<SafetyReport, ReportsBySubmission>(
                duplicate_records(&self.safety_reports),
            ),
            resident_sanctions: sort_records::<ResidentSanction, SanctionsByIssue>(
                duplicate_records(&self.resident_sanctions),
            ),
            registration_blacklist: sort_records::<
                RegistrationBlacklistEntry,
                BlacklistByKindHashTime,
            >(duplicate_records(&self.registration_blacklist)),
        }
    }
}

/// What the seeded records carry besides their governance fields: the
/// default scenes of the seeded cities and rooms, and the default retention
/// policy and features of a city, each as JSON text.
pub struct SeedDetails {
    pub core_harbor_scene: String,
    pub aurora_hub_scene: String,
    pub lobby_scene: String,
    pub announcements_scene: String,
    pub retention_policy: String,
    pub features: String,
}

pub struct SeedDetailsView {
    pub core_harbor_scene: Seq<char>,
    pub aurora_hub_scene: Seq<char>,
    pub lobby_scene: Seq<char>,
    pub announcements_scene: Seq<char>,
    pub retention_policy: Seq<char>,
    pub features: Seq<char>,
}

impl View for SeedDetails {
    type V = SeedDetailsView;

    open spec fn view(&self) -> SeedDetailsView {
        SeedDetailsView {
            core_harbor_scene: self.core_harbor_scene@,
            aurora_hub_scene: self.aurora_hub_scene@,
            lobby_scene: self.lobby_scene@,
            announcements_scene: self.announcements_scene@,
            retention_policy: self.retention_policy@,
            features: self.features@,
        }
    }
}

/// A city as the runtime seeds it: portable residents, open federation, no
/// approval needed, public rooms discoverable.
pub open spec fn seeded_city(
    world: Seq<char>,
    city_id: Seq<char>,
    slug: Seq<char>,
    title: Seq<char>,
    description: Seq<char>,
    scene: Seq<char>,
    d: SeedDetailsView,
) -> <CityState as View>::V {
    CityView {
        city_id,
        world_id: world,
        slug,
        title,
        description,
        resident_portable: true,
        approval_required: false,
        public_room_discovery_enabled: true,
        federation_policy: FederationPolicy::Open,
        relay_budget_hint: RelayBudgetHint::Balanced,
        scene: Some(scene),
        retention_policy: d.retention_policy,
        features: d.features,
    }
}

/// An active membership.
pub open spec fn active_membership(
    city_id: Seq<char>,
    resident_id: Seq<char>,
    role: CityRole,
    joined_at_ms: u64,
    added_by: Option<Seq<char>>,
) -> <CityMembership as View>::V {
    MembershipView {
        city_id,
        resident_id,
        role,
        state: MembershipState::Active,
        joined_at_ms,
        added_by,
    }
}

/// An open public room created by `rsaga`.
pub open spec fn seeded_room(
    room_id: Seq<char>,
    city_id: Seq<char>,
    slug: Seq<char>,
    title: Seq<char>,
    description: Seq<char>,
    created_at_ms: u64,
    scene: Seq<char>,
) -> <PublicRoomRecord as View>::V {
    PublicRoomView {
        room_id,
        city_id,
        slug,
        title,
        description,
        created_by: "rsaga"@,
        created_at_ms,
        frozen: false,
        scene: Some(scene),
    }
}

/// Core Harbor, as seeded.
pub open spec fn core_harbor_city(world_id: Seq<char>, d: SeedDetailsView) -> <CityState as View>::V {
    seeded_city(
        world_id,
        "city:core-harbor"@,
        "core-harbor"@,
        "Core Harbor"@,
        "Default city for local-first relay, shell, and governance testing."@,
        d.core_harbor_scene,
        d,
    )
}

/// Aurora Hub, as seeded.
pub open spec fn aurora_hub_city(world_id: Seq<char>, d: SeedDetailsView) -> <CityState as View>::V {
    seeded_city(
        world_id,
        "city:aurora-hub"@,
        "aurora-hub"@,
        "Aurora Hub"@,
        "Default governance city for lord-view notices and city operations."@,
        d.aurora_hub_scene,
        d,
    )
}

/// Core Harbor's lobby, as seeded.
pub open spec fn lobby_room(now_ms: u64, d: SeedDetailsView) -> <PublicRoomRecord as View>::V {
    seeded_room(
        "room:city:core-harbor:lobby"@,
        "city:core-harbor"@,
        "lobby"@,
        "City Lobby"@,
        "Default public room for city residents."@,
        now_ms,
        d.lobby_scene,
    )
}

/// Aurora Hub's announcements room, as seeded.
pub open spec fn announcements_room(now_ms: u64, d: SeedDetailsView) -> <PublicRoomRecord as View>::V {
    seeded_room(
        "room:city:aurora-hub:announcements"@,
        "city:aurora-hub"@,
        "announcements"@,
        "City Announcements"@,
        "Default governance room for city notices and operator messages."@,
        now_ms,
        d.announcements_scene,
    )
}

/// The state once Core Harbor and its three memberships are in (lord
/// `rsaga`, steward `builder`, resident `tiyan`), before its lobby.
pub open spec fn seeded_core_harbor(v: SnapshotView, now_ms: u64, d: SeedDetailsView) -> SnapshotView {
    SnapshotView {
        cities: upsert_city(v.cities, core_harbor_city(v.world.world_id, d)),
        memberships: v.memberships + seq![
            active_membership("city:core-harbor"@, "rsaga"@, CityRole::Lord, now_ms, None),
            active_membership(
                "city:core-harbor"@,
                "builder"@,
                CityRole::Steward,
                now_ms,
                Some("rsaga"@),
            ),
            active_membership(
                "city:core-harbor"@,
                "tiyan"@,
                CityRole::Resident,
                now_ms,
                Some("rsaga"@),
            ),
        ],
        ..v
    }
}

/// The state once the lobby, Aurora Hub and its two memberships (lord
/// `rsaga`, steward `builder`) are in too, before its announcements room.
pub open spec fn seeded_through_aurora(v: SnapshotView, now_ms: u64, d: SeedDetailsView) -> SnapshotView {
    let s = seeded_core_harbor(v, now_ms, d);
    SnapshotView {
        cities: upsert_city(s.cities, aurora_hub_city(v.world.world_id, d)),
        memberships: s.memberships + seq![
            active_membership("city:aurora-hub"@, "rsaga"@, CityRole::Lord, now_ms, None),
            active_membership(
                "city:aurora-hub"@,
                "builder"@,
                CityRole::Steward,
                now_ms,
                Some("rsaga"@),
            ),
        ],
        public_rooms: s.public_rooms.push(lobby_room(now_ms, d)),
        ..s
    }
}

/// The governance state after seeding the default cities at time `now_ms`:
/// Core Harbor (lord `rsaga`, steward `builder`, resident `tiyan`, with its
/// lobby) and Aurora Hub (lord `rsaga`, steward `builder`, with its
/// announcements room).
pub open spec fn seeded_governance(v: SnapshotView, now_ms: u64, d: SeedDetailsView) -> SnapshotView {
    let s = seeded_through_aurora(v, now_ms, d);
    SnapshotView { public_rooms: s.public_rooms.push(announcements_room(now_ms, d)), ..s }
}

/// Whether the chat store's call `ensure` may succeed for a room with the
/// view `room`.
pub open spec fn conversation_ok<F: Fn(&PublicRoomRecord) -> Result<(), String>>(
    ensure: F,
    room: <PublicRoomRecord as View>::V,
) -> bool {
    exists|rec: PublicRoomRecord, out: Result<(), String>|
        rec@ == room && #[trigger] call_ensures(ensure, (&rec,), out) && out is Ok
}

/// Whether the chat store's call `ensure` may fail with `e` for a room with
/// the view `room`.
pub open spec fn conversation_failed<F: Fn(&PublicRoomRecord) -> Result<(), String>>(
    ensure: F,
    room: <PublicRoomRecord as View>::V,
    e: String,
) -> bool {
    exists|rec: PublicRoomRecord| rec@ == room && #[trigger] call_ensures(ensure, (&rec,), Err(e))
}

fn new_city(
    world_id: &String,
    city_id: &str,
    slug: &str,
    title: &str,
    description: &str,
    scene: &String,
    details: &SeedDetails,
) -> (r: CityState)
    ensures
        r@ == seeded_city(world_id@, city_id@, slug@, title@, description@, scene@, details@),
{
    CityState {
        profile: CityProfile {
            city_id: CityId(city_id.to_owned()),
            world_id: world_id.clone(),
            slug: slug.to_owned(),
            title: title.to_owned(),
            description: description.to_owned(),
            resident_portable: true,
            approval_required: false,
            public_room_discovery_enabled: true,
            federation_policy: FederationPolicy::Open,
            relay_budget_hint: RelayBudgetHint::Balanced,
            scene: Some(scene.clone()),
            retention_policy: details.retention_policy.clone(),
        },
        features: details.features.clone(),
    }
}

fn new_membership(
    city_id: &str,
    resident_id: &str,
    role: CityRole,
    joined_at_ms: u64,
    added_by: Option<&str>,
) -> (r: CityMembership)
    ensures
        r@ == active_membership(
            city_id@,
            resident_id@,
            role,
            joined_at_ms,
            match added_by {
                Some(a) => Some(a@),
                None => None,
            },
        ),
{
    CityMembership {
        city_id: CityId(city_id.to_owned()),
        resident_id: IdentityId(resident_id.to_owned()),
        role,
        state: MembershipState::Active,
        joined_at_ms,
        added_by: match added_by {
            Some(a) => Some(IdentityId(a.to_owned())),
            None => None,
        },
    }
}

fn new_room(
    room_id: &str,
    city_id: &str,
    slug: &str,
    title: &str,
    description: &str,
    created_at_ms: u64,
    scene: &String,
) -> (r: PublicRoomRecord)
    ensures
        r@ == seeded_room(room_id@, city_id@, slug@, title@, description@, created_at_ms, scene@),
{
    PublicRoomRecord {
        room_id: ConversationId(room_id.to_owned()),
        city_id: CityId(city_id.to_owned()),
        slug: slug.to_owned(),
        title: title.to_owned(),
        description: description.to_owned(),
        created_by: IdentityId("rsaga".to_owned()),
        created_at_ms,
        frozen: false,
        scene: Some(scene.clone()),
    }
}

impl GatewayRuntime {
    /// Seeds the default cities, their memberships and their public rooms,
    /// stamped with `now_ms`; the cities and rooms carry the default scenes,
    /// retention policy and features of `details`. Before each room is added,
    /// `ensure_conversation` (the chat store) makes sure the room has its
    /// conversation; when that fails, seeding stops there with its error and
    /// what was seeded so far stays.
    pub fn seed_default_governance<F: Fn(&PublicRoomRecord) -> Result<(), String>>(
        &mut self,
        now_ms: u64,
        details: &SeedDetails,
        ensure_conversation: F,
    ) -> (r: Result<(), String>)
        requires
            forall|room: &PublicRoomRecord| call_requires(ensure_conversation, (room,)),
        ensures
            cities_keyed(final(self)@.cities),
            match r {
                Ok(()) => {
                    &&& final(self)@ == seeded_governance(old(self)@, now_ms, details@)
                    &&& conversation_ok(ensure_conversation, lobby_room(now_ms, details@))
                    &&& conversation_ok(ensure_conversation, announcements_room(now_ms, details@))
                },
                Err(e) => {
                    ||| final(self)@ == seeded_core_harbor(old(self)@, now_ms, details@)
                        && conversation_failed(ensure_conversation, lobby_room(now_ms, details@), e)
                    ||| final(self)@ == seeded_through_aurora(old(self)@, now_ms, details@)
                        && conversation_ok(ensure_conversation, lobby_room(now_ms, details@))
                        && conversation_failed(
                        ensure_conversation,
                        announcements_room(now_ms, details@),
                        e,
                    )
                },
            },
    {
        let ghost start = self@;
        let core = new_city(
            &self.world.world_id,
            "city:core-harbor",
            "core-harbor",
            "Core Harbor",
            "Default city for local-first relay, shell, and governance testing.",
            &details.core_harbor_scene,
            details,
        );
        self.upsert_city(core);
        let ghost m0 = views_of(self.memberships@);
        let ghost r0 = views_of(self.public_rooms@);
        let a1 = new_membership("city:core-harbor", "rsaga", CityRole::Lord, now_ms, None);
        let a2 = new_membership(
            "city:core-harbor",
            "builder",
            CityRole::Steward,
            now_ms,
            Some("rsaga"),
        );
        let a3 = new_membership(
            "city:core-harbor",
            "tiyan",
            CityRole::Resident,
            now_ms,
            Some("rsaga"),
        );
        let ghost (v1, v2, v3) = (a1@, a2@, a3@);
        let mut memberships: Vec<CityMembership> = Vec::new();
        std::mem::swap(&mut memberships, &mut self.memberships);
        memberships.push(a1);
        memberships.push(a2);
        memberships.push(a3);
        self.memberships = memberships;
        assert(views_of(self.memberships@) =~= m0.push(v1).push(v2).push(v3));
        proof {
            let target = seeded_core_harbor(start, now_ms, details@);
            assert(self@.memberships =~= target.memberships);
            assert(self@ == target);
        }
        let lobby = new_room(
            "room:city:core-harbor:lobby",
            "city:core-harbor",
            "lobby",
            "City Lobby",
            "Default public room for city residents.",
            now_ms,
            &details.lobby_scene,
        );
        let lobby_out = ensure_conversation(&lobby);
        if lobby_out.is_err() {
            proof {
                assert(lobby_out == Err::<(), String>(lobby_out->Err_0));
                assert(call_ensures(ensure_conversation, (&lobby,), Err(lobby_out->Err_0)));
            }
            return lobby_out;
        }
        assert(conversation_ok(ensure_conversation, lobby_room(now_ms, details@)));
        let ghost w1 = lobby@;
        let mut public_rooms: Vec<PublicRoomRecord> = Vec::new();
        std::mem::swap(&mut public_rooms, &mut self.public_rooms);
        public_rooms.push(lobby);
        self.public_rooms = public_rooms;
        assert(views_of(self.public_rooms@) =~= r0.push(w1));
        let aurora = new_city(
            &self.world.world_id,
            "city:aurora-hub",
            "aurora-hub",
            "Aurora Hub",
            "Default governance city for lord-view notices and city operations.",
            &details.aurora_hub_scene,
            details,
        );
        self.upsert_city(aurora);
        let a4 = new_membership("city:aurora-hub", "rsaga", CityRole::Lord, now_ms, None);
        let a5 = new_membership(
            "city:aurora-hub",
            "builder",
            CityRole::Steward,
            now_ms,
            Some("rsaga"),
        );
        let ghost (v4, v5) = (a4@, a5@);
        let mut memberships: Vec<CityMembership> = Vec::new();
        std::mem::swap(&mut memberships, &mut self.memberships);
        memberships.push(a4);
        memberships.push(a5);
        self.memberships = memberships;
        assert(views_of(self.memberships@) =~= m0.push(v1).push(v2).push(v3).push(v4).push(v5));
        proof {
            let target = seeded_through_aurora(start, now_ms, details@);
            assert(self@.memberships =~= target.memberships);
            assert(self@.public_rooms =~= target.public_rooms);
            assert(self@ == target);
        }
        let announcements = new_room(
            "room:city:aurora-hub:announcements",
            "city:aurora-hub",
            "announcements",
            "City Announcements",
            "Default governance room for city notices and operator messages.",
            now_ms,
            &details.announcements_scene,
        );
        let announcements_out = ensure_conversation(&announcements);
        if announcements_out.is_err() {
            proof {
                assert(announcements_out == Err::<(), String>(announcements_out->Err_0));
                assert(call_ensures(
                    ensure_conversation,
                    (&announcements,),
                    Err(announcements_out->Err_0),
                ));
            }
            return announcements_out;
        }
        assert(conversation_ok(ensure_conversation, announcements_room(now_ms, details@)));
        let ghost w2 = announcements@;
        let mut public_rooms: Vec<PublicRoomRecord> = Vec::new();
        std::mem::swap(&mut public_rooms, &mut self.public_rooms);
        public_rooms.push(announcements);
        self.public_rooms = public_rooms;
        assert(views_of(self.public_rooms@) =~= r0.push(w1).push(w2));
        proof {
            let target = seeded_governance(start, now_ms, details@);
            assert(self@.public_rooms =~= target.public_rooms);
        }
        Ok(())
    }
}

pub open spec fn lists_city(cities: Seq<<CityState as View>::V>, id: Seq<char>) -> bool {
    exists|i: int| 0 <= i < cities.len() && cities[i].city_id == id
}

pub open spec fn trust_names_city(trust: Seq<<CityTrustRecord as View>::V>, id: Seq<char>) -> bool {
    exists|i: int| 0 <= i < trust.len() && trust[i].city_id == id
}

/// A healthy trust record set by `rsaga`.
pub open spec fn healthy_trust(city_id: Seq<char>, reason: Seq<char>, now_ms: u64) -> <
    CityTrustRecord as View>::V {
    CityTrustView {
        city_id,
        state: CityTrustState::Healthy,
        reason: Some(reason),
        updated_by: "rsaga"@,
        updated_at_ms: now_ms,
    }
}

/// The notice that opens the World Square.
pub open spec fn welcome_notice(now_ms: u64) -> <WorldSquareNotice as View>::V {
    NoticeView {
        notice_id: "notice:welcome"@,
        title: "World Square online"@,
        body: "World Square mirrors city discovery, safety notices, and cross-city commons."@,
        author_id: "rsaga"@,
        posted_at_ms: now_ms,
        severity: "info"@,
        tags: seq!["world"@, "square"@],
    }
}

/// Trust for a seeded city is added when the city is there and has no trust
/// record yet.
pub open spec fn with_seed_trust(
    trust: Seq<<CityTrustRecord as View>::V>,
    cities: Seq<<CityState as View>::V>,
    city_id: Seq<char>,
    reason: Seq<char>,
    now_ms: u64,
) -> Seq<<CityTrustRecord as View>::V> {
    if !trust_names_city(trust, city_id) && lists_city(cities, city_id) {
        trust.push(healthy_trust(city_id, reason, now_ms))
    } else {
        trust
    }
}

/// The world safety defaults: `rsaga` stewards an unstewarded world, an empty
/// World Square gets its welcome notice, and the seeded cities that are
/// present get a healthy trust record when they have none.
pub open spec fn world_safety_defaults(v: SnapshotView, now_ms: u64) -> SnapshotView {
    let first = with_seed_trust(
        v.city_trust,
        v.cities,
        "city:core-harbor"@,
        "seed city"@,
        now_ms,
    );
    SnapshotView {
        world_stewards: if v.world_stewards.len() == 0 {
            seq!["rsaga"@]
        } else {
            v.world_stewards
        },
        world_square_notices: if v.world_square_notices.len() == 0 {
            seq![welcome_notice(now_ms)]
        } else {
            v.world_square_notices
        },
        city_trust: with_seed_trust(
            first,
            v.cities,
            "city:aurora-hub"@,
            "seed governance city"@,
            now_ms,
        ),
        ..v
    }
}

fn lists_city_exec(cities: &Vec<CityState>, id: &str) -> (r: bool)
    ensures
        r == lists_city(views_of(cities@), id@),
{
    let wanted = id.to_owned();
    let mut i: usize = 0;
    while i < cities.len()
        invariant
            i <= cities@.len(),
            wanted@ == id@,
            forall|k: int| 0 <= k < i ==> views_of(cities@)[k].city_id != id@,
        decreases cities@.len() - i,
    {
        if cities[i].profile.city_id.0 == wanted {
            assert(views_of(cities@)[i as int].city_id == id@);
            return true;
        }
        i = i + 1;
    }
    false
}

fn trust_names_city_exec(trust: &Vec<CityTrustRecord>, id: &str) -> (r: bool)
    ensures
        r == trust_names_city(views_of(trust@), id@),
{
    let wanted = id.to_owned();
    let mut i: usize = 0;
    while i < trust.len()
        invariant
            i <= trust@.len(),
            wanted@ == id@,
            forall|k: int| 0 <= k < i ==> views_of(trust@)[k].city_id != id@,
        decreases trust@.len() - i,
    {
        if trust[i].city_id.0 == wanted {
            assert(views_of(trust@)[i as int].city_id == id@);
            return true;
        }
        i = i + 1;
    }
    false
}

impl GatewayRuntime {
    fn add_seed_trust(&mut self, city_id: &str, reason: &str, now_ms: u64)
        ensures
            final(self)@ == (SnapshotView {
                city_trust: with_seed_trust(
                    old(self)@.city_trust,
                    old(self)@.cities,
                    city_id@,
                    reason@,
                    now_ms,
                ),
                ..old(self)@
            }),
    {
        if !trust_names_city_exec(&self.city_trust, city_id) && lists_city_exec(
            &self.cities,
            city_id,
        ) {
            let record = CityTrustRecord {
                city_id: CityId(city_id.to_owned()),
                state: CityTrustState::Healthy,
                reason: Some(reason.to_owned()),
                updated_by: IdentityId("rsaga".to_owned()),
                updated_at_ms: now_ms,
            };
            let ghost before = views_of(self.city_trust@);
            let ghost rv = record@;
            proof {
                use_type_invariant(&*self);
            }
            let mut city_trust: Vec<CityTrustRecord> = Vec::new();
            std::mem::swap(&mut city_trust, &mut self.city_trust);
            city_trust.push(record);
            self.city_trust = city_trust;
            assert(views_of(self.city_trust@) =~= before.push(rv));
        }
    }

    /// Makes sure the world has a steward, a World Square notice and trust
    /// records for the seeded cities, stamped with `now_ms`.
    pub fn ensure_default_world_safety(&mut self, now_ms: u64)
        ensures
            final(self)@ == world_safety_defaults(old(self)@, now_ms),
    {
        proof {
            use_type_invariant(&*self);
        }
        let ghost start = self@;
        if self.world_stewards.len() == 0 {
            let mut stewards: Vec<IdentityId> = Vec::new();
            stewards.push(IdentityId("rsaga".to_owned()));
            self.world_stewards = stewards;
            assert(views_of(self.world_stewards@) =~= seq!["rsaga"@]);
        }
        if self.world_square_notices.len() == 0 {
            let mut tags: Vec<String> = Vec::new();
            tags.push("world".to_owned());
            tags.push("square".to_owned());
            assert(texts_of(tags@) =~= seq!["world"@, "square"@]);
            let mut notices: Vec<WorldSquareNotice> = Vec::new();
            notices.push(
                WorldSquareNotice {
                    notice_id: "notice:welcome".to_owned(),
                    title: "World Square online".to_owned(),
                    body: "World Square mirrors city discovery, safety notices, and cross-city commons.".to_owned(),
                    author_id: IdentityId("rsaga".to_owned()),
                    posted_at_ms: now_ms,
                    severity: "info".to_owned(),
                    tags,
                },
            );
            self.world_square_notices = notices;
            assert(views_of(self.world_square_notices@) =~= seq![welcome_notice(now_ms)]);
        }
        self.add_seed_trust("city:core-harbor", "seed city", now_ms);
        self.add_seed_trust("city:aurora-hub", "seed governance city", now_ms);
    }
}

/// The cities of a loaded snapshot, each stored under its id in turn (a
/// later city replaces an earlier one with the same id).
pub open spec fn upsert_all(
    acc: Seq<<CityState as View>::V>,
    cities: Seq<<CityState as View>::V>,
) -> Seq<<CityState as View>::V>
    decreases cities.len(),
{
    if cities.len() == 0 {
        acc
    } else {
        upsert_all(upsert_city(acc, cities[0]), cities.drop_first())
    }
}

/// The runtime state that a loaded snapshot gives.
pub open spec fn installed(s: SnapshotView) -> SnapshotView {
    SnapshotView { cities: upsert_all(seq![], s.cities), ..s }
}

impl GatewayRuntime {
    /// Replaces the governance state with a loaded snapshot, then has
    /// `ensure_conversation` (the chat store) make sure each of its public
    /// rooms, in order, has its conversation; the first failure is returned,
    /// with the snapshot installed all the same.
    pub fn install_governance_snapshot<F: Fn(&PublicRoomRecord) -> Result<(), String>>(
        &mut self,
        snapshot: GovernanceSnapshot,
        ensure_conversation: F,
    ) -> (r: Result<(), String>)
        requires
            forall|room: &PublicRoomRecord| call_requires(ensure_conversation, (room,)),
        ensures
            final(self)@ == installed(snapshot@),
            cities_keyed(final(self)@.cities),
            match r {
                Ok(()) => forall|i: int|
                    0 <= i < snapshot@.public_rooms.len() ==> conversation_ok(
                        ensure_conversation,
                        #[trigger] snapshot@.public_rooms[i],
                    ),
                Err(e) => exists|i: int|
                    0 <= i < snapshot@.public_rooms.len() && conversation_failed(
                        ensure_conversation,
                        #[trigger] snapshot@.public_rooms[i],
                        e,
                    ) && forall|j: int|
                        0 <= j < i ==> conversation_ok(
                            ensure_conversation,
                            #[trigger] snapshot@.public_rooms[j],
                        ),
            },
    {
        proof {
            use_type_invariant(&*self);
        }
        let ghost s = snapshot@;
        let GovernanceSnapshot {
            world,
            portability,
            cities,
            memberships,
            public_rooms,
            world_stewards,
            city_trust,
            world_square_notices,
            safety_advisories,
            safety_reports,
            resident_sanctions,
            registration_blacklist,
        } = snapshot;
        self.world = world;
        self.portability = portability;
        self.memberships = memberships;
        self.public_rooms = public_rooms;
        self.world_stewards = world_stewards;
        self.city_trust = city_trust;
        self.world_square_notices = world_square_notices;
        self.safety_advisories = safety_advisories;
        self.safety_reports = safety_reports;
        self.resident_sanctions = resident_sanctions;
        self.registration_blacklist = registration_blacklist;
        self.cities = Vec::new();
        let mut incoming = cities;
        assert(views_of(self.cities@) =~= seq![]);
        assert(views_of(incoming@) == s.cities);
        while incoming.len() > 0
            invariant
                upsert_all(views_of(self.cities@), views_of(incoming@)) == upsert_all(seq![], s.cities),
                cities_keyed(self@.cities),
                self@ == (SnapshotView { cities: self@.cities, ..s }),
            decreases incoming@.len(),
        {
            let ghost before = incoming@;
            let city = incoming.remove(0);
            assert(views_of(before)[0] == city@);
            assert(views_of(incoming@) =~= views_of(before).drop_first());
            self.upsert_city(city);
        }
        let mut i: usize = 0;
        while i < self.public_rooms.len()
            invariant
                i <= self@.public_rooms.len(),
                s == snapshot@,
                self@ == installed(s),
                cities_keyed(self@.cities),
                forall|room: &PublicRoomRecord| call_requires(ensure_conversation, (room,)),
                forall|k: int|
                    0 <= k < i ==> conversation_ok(ensure_conversation, #[trigger] s.public_rooms[k]),
            decreases self@.public_rooms.len() - i,
        {
            let room = &self.public_rooms[i];
            let out = ensure_conversation(room);
            assert(room@ == s.public_rooms[i as int]);
            if out.is_err() {
                proof {
                    assert(out == Err::<(), String>(out->Err_0));
                    assert(call_ensures(ensure_conversation, (room,), Err(out->Err_0)));
                    assert(conversation_failed(ensure_conversation, s.public_rooms[i as int], out->Err_0));
                }
                return out;
            }
            assert(conversation_ok(ensure_conversation, s.public_rooms[i as int]));
            i = i + 1;
        }
        Ok(())
    }
}

impl GatewayRuntime {
    /// The runtime's world.
    pub fn world(&self) -> (r: &WorldProfile)
        ensures
            r@ == self@.world,
    {
        &self.world
    }

    /// The world's portability settings, as their JSON text.
    pub fn portability(&self) -> (r: &String)
        ensures
            r@ == self@.portability,
    {
        &self.portability
    }

    /// The cities, in the order the runtime holds them.
    pub fn cities(&self) -> (r: &Vec<CityState>)
        ensures
            views_of(r@) == self@.cities,
            cities_keyed(views_of(r@)),
    {
        proof {
            use_type_invariant(self);
        }
        &self.cities
    }

    pub fn memberships(&self) -> (r: &Vec<CityMembership>)
        ensures
            views_of(r@) == self@.memberships,
    {
        &self.memberships
    }

    pub fn public_rooms(&self) -> (r: &Vec<PublicRoomRecord>)
        ensures
            views_of(r@) == self@.public_rooms,
    {
        &self.public_rooms
    }

    pub fn world_stewards(&self) -> (r: &Vec<IdentityId>)
        ensures
            views_of(r@) == self@.world_stewards,
    {
        &self.world_stewards
    }

    pub fn city_trust(&self) -> (r: &Vec<CityTrustRecord>)
        ensures
            views_of(r@) == self@.city_trust,
    {
        &self.city_trust
    }

    pub fn world_square_notices(&self) -> (r: &Vec<WorldSquareNotice>)
        ensures
            views_of(r@) == self@.world_square_notices,
    {
        &self.world_square_notices
    }

    pub fn safety_advisories(&self) -> (r: &Vec<SafetyAdvisory>)
        ensures
            views_of(r@) == self@.safety_advisories,
    {
        &self.safety_advisories
    }

    pub fn safety_reports(&self) -> (r: &Vec<SafetyReport>)
        ensures
            views_of(r@) == self@.safety_reports,
    {
        &self.safety_reports
    }

    pub fn resident_sanctions(&self) -> (r: &Vec<ResidentSanction>)
        ensures
            views_of(r@) == self@.resident_sanctions,
    {
        &self.resident_sanctions
    }

    pub fn registration_blacklist(&self) -> (r: &Vec<RegistrationBlacklistEntry>)
        ensures
            views_of(r@) == self@.registration_blacklist,
    {
        &self.registration_blacklist
    }

}

/// A merge of two snapshots keeps the primary world and merges every list as
/// it owes: sorted by its key, each primary record kept, each secondary key
/// covered, nothing else added, keys unique where the primary's are.
pub proof fn lemma_merge_snapshot_laws(p: SnapshotView, s: SnapshotView)
    ensures
        merge_snapshot_views(p, s).world == p.world,
        merge_snapshot_views(p, s).portability == p.portability,
        merge_ordered(merge_snapshot_views(p, s)),
        merge_respects::<CityState, CitiesBySlugAndId>(
            p.cities,
            s.cities,
            merge_snapshot_views(p, s).cities,
        ),
        merge_respects::<CityMembership, MembershipsByCityResidentTime>(
            p.memberships,
            s.memberships,
            merge_snapshot_views(p, s).memberships,
        ),
        merge_respects::<PublicRoomRecord, RoomsByCreation>(
            p.public_rooms,
            s.public_rooms,
            merge_snapshot_views(p, s).public_rooms,
        ),
        merge_respects::<IdentityId, IdentitiesByText>(
            p.world_stewards,
            s.world_stewards,
            merge_snapshot_views(p, s).world_stewards,
        ),
        merge_respects::<CityTrustRecord, TrustByCity>(
            p.city_trust,
            s.city_trust,
            merge_snapshot_views(p, s).city_trust,
        ),
        merge_respects::<WorldSquareNotice, NoticesByPosting>(
            p.world_square_notices,
            s.world_square_notices,
            merge_snapshot_views(p, s).world_square_notices,
        ),
        merge_respects::<SafetyAdvisory, AdvisoriesByIssue>(
            p.safety_advisories,
            s.safety_advisories,
            merge_snapshot_views(p, s).safety_advisories,
        ),
        merge_respects::<SafetyReport, ReportsBySubmission>(
            p.safety_reports,
            s.safety_reports,
            merge_snapshot_views(p, s).safety_reports,
        ),
        merge_respects::<ResidentSanction, SanctionsByIssue>(
            p.resident_sanctions,
            s.resident_sanctions,
            merge_snapshot_views(p, s).resident_sanctions,
        ),
        merge_respects::<RegistrationBlacklistEntry, BlacklistByKindHashTime>(
            p.registration_blacklist,
            s.registration_blacklist,
            merge_snapshot_views(p, s).registration_blacklist,
        ),
{
    lemma_merge_respects::<CityState, CitiesBySlugAndId>(p.cities, s.cities);
    lemma_merge_respects::<CityMembership, MembershipsByCityResidentTime>(
        p.memberships,
        s.memberships,
    );
    lemma_merge_respects::<PublicRoomRecord, RoomsByCreation>(p.public_rooms, s.public_rooms);
    lemma_merge_respects::<IdentityId, IdentitiesByText>(p.world_stewards, s.world_stewards);
    lemma_merge_respects::<CityTrustRecord, TrustByCity>(p.city_trust, s.city_trust);
    lemma_merge_respects::<WorldSquareNotice, NoticesByPosting>(
        p.world_square_notices,
        s.world_square_notices,
    );
    lemma_merge_respects::<SafetyAdvisory, AdvisoriesByIssue>(
        p.safety_advisories,
        s.safety_advisories,
    );
    lemma_merge_respects::<SafetyReport, ReportsBySubmission>(p.safety_reports, s.safety_reports);
    lemma_merge_respects::<ResidentSanction, SanctionsByIssue>(
        p.resident_sanctions,
        s.resident_sanctions,
    );
    lemma_merge_respects::<RegistrationBlacklistEntry, BlacklistByKindHashTime>(
        p.registration_blacklist,
        s.registration_blacklist,
    );
}

/// Merging a snapshot whose lists are in merge order with itself gives it
/// back unchanged: federating with an identical mirror changes nothing.
pub proof fn lemma_merge_snapshot_self(v: SnapshotView)
    requires
        merge_ordered(v),
    ensures
        merge_snapshot_views(v, v) == v,
{
    lemma_merge_records_self::<CityState, CitiesBySlugAndId>(v.cities);
    lemma_merge_records_self::<CityMembership, MembershipsByCityResidentTime>(v.memberships);
    lemma_merge_records_self::<PublicRoomRecord, RoomsByCreation>(v.public_rooms);
    lemma_merge_records_self::<IdentityId, IdentitiesByText>(v.world_stewards);
    lemma_merge_records_self::<CityTrustRecord, TrustByCity>(v.city_trust);
    lemma_merge_records_self::<WorldSquareNotice, NoticesByPosting>(v.world_square_notices);
    lemma_merge_records_self::<SafetyAdvisory, AdvisoriesByIssue>(v.safety_advisories);
    lemma_merge_records_self::<SafetyReport, ReportsBySubmission>(v.safety_reports);
    lemma_merge_records_self::<ResidentSanction, SanctionsByIssue>(v.resident_sanctions);
    lemma_merge_records_self::<RegistrationBlacklistEntry, BlacklistByKindHashTime>(
        v.registration_blacklist,
    );
}

/// A published snapshot holds exactly the runtime's records, every list in
/// its order, and the runtime's world.
pub proof fn lemma_snapshot_laws(v: SnapshotView)
    ensures
        snapshot_of(v).world == v.world,
        snapshot_of(v).portability == v.portability,
        sorted_permutation::<CityState, CitiesBySlugAndId>(v.cities, snapshot_of(v).cities),
        sorted_permutation::<CityMembership, MembershipsByCityResidentTime>(
            v.memberships,
            snapshot_of(v).memberships,
        ),
        sorted_permutation::<PublicRoomRecord, RoomsByCreation>(
            v.public_rooms,
            snapshot_of(v).public_rooms,
        ),
        sorted_permutation::<IdentityId, IdentitiesByText>(
            v.world_stewards,
            snapshot_of(v).world_stewards,
        ),
        sorted_permutation::<CityTrustRecord, TrustByCity>(v.city_trust, snapshot_of(v).city_trust),
        sorted_permutation::<WorldSquareNotice, NoticesByPosting>(
            v.world_square_notices,
            snapshot_of(v).world_square_notices,
        ),
        sorted_permutation::<SafetyAdvisory, AdvisoriesByIssue>(
            v.safety_advisories,
            snapshot_of(v).safety_advisories,
        ),
        sorted_permutation::<SafetyReport, ReportsBySubmission>(
            v.safety_reports,
            snapshot_of(v).safety_reports,
        ),
        sorted_permutation::<ResidentSanction, SanctionsByIssue>(
            v.resident_sanctions,
            snapshot_of(v).resident_sanctions,
        ),
        sorted_permutation::<RegistrationBlacklistEntry, BlacklistByKindHashTime>(
            v.registration_blacklist,
            snapshot_of(v).registration_blacklist,
        ),
{
    lemma_stable_sort_is_sorted_permutation::<CityState, CitiesBySlugAndId>(v.cities);
    lemma_stable_sort_is_sorted_permutation::<CityMembership, MembershipsByCityResidentTime>(
        v.memberships,
    );
    lemma_stable_sort_is_sorted_permutation::<PublicRoomRecord, RoomsByCreation>(v.public_rooms);
    lemma_stable_sort_is_sorted_permutation::<IdentityId, IdentitiesByText>(v.world_stewards);
    lemma_stable_sort_is_sorted_permutation::<CityTrustRecord, TrustByCity>(v.city_trust);
    lemma_stable_sort_is_sorted_permutation::<WorldSquareNotice, NoticesByPosting>(
        v.world_square_notices,
    );
    lemma_stable_sort_is_sorted_permutation::<SafetyAdvisory, AdvisoriesByIssue>(
        v.safety_advisories,
    );
    lemma_stable_sort_is_sorted_permutation::<SafetyReport, ReportsBySubmission>(
        v.safety_reports,
    );
    lemma_stable_sort_is_sorted_permutation::<ResidentSanction, SanctionsByIssue>(
        v.resident_sanctions,
    );
    lemma_stable_sort_is_sorted_permutation::<RegistrationBlacklistEntry, BlacklistByKindHashTime>(
        v.registration_blacklist,
    );
}

proof fn lemma_upsert_lists(cities: Seq<<CityState as View>::V>, city: <CityState as View>::V, id: Seq<char>)
    ensures
        lists_city(upsert_city(cities, city), city.city_id),
        lists_city(cities, id) ==> lists_city(upsert_city(cities, city), id),
{
    let r = upsert_city(cities, city);
    if has_key::<CityState>(cities, city) {
        let i = choose|i: int| 0 <= i < cities.len() && cities[i].city_id == city.city_id;
        assert(r[i] == city);
        if lists_city(cities, id) {
            let k = choose|k: int| 0 <= k < cities.len() && cities[k].city_id == id;
            if k == i {
                assert(r[i].city_id == id);
            } else {
                assert(r[k] == cities[k]);
            }
        }
    } else {
        assert(r[cities.len() as int] == city);
        if lists_city(cities, id) {
            let k = choose|k: int| 0 <= k < cities.len() && cities[k].city_id == id;
            assert(r[k] == cities[k]);
        }
    }
}

proof fn lemma_seed_trust_names(
    trust: Seq<<CityTrustRecord as View>::V>,
    cities: Seq<<CityState as View>::V>,
    city_id: Seq<char>,
    reason: Seq<char>,
    now_ms: u64,
    other: Seq<char>,
)
    ensures
        lists_city(cities, city_id) ==> trust_names_city(
            with_seed_trust(trust, cities, city_id, reason, now_ms),
            city_id,
        ),
        trust_names_city(trust, other) ==> trust_names_city(
            with_seed_trust(trust, cities, city_id, reason, now_ms),
            other,
        ),
{
    let r = with_seed_trust(trust, cities, city_id, reason, now_ms);
    if !trust_names_city(trust, city_id) && lists_city(cities, city_id) {
        assert(r[trust.len() as int].city_id == city_id);
        if trust_names_city(trust, other) {
            let k = choose|k: int| 0 <= k < trust.len() && trust[k].city_id == other;
            assert(r[k] == trust[k]);
        }
    }
}

/// After seeding the default governance and ensuring the world safety
/// defaults, the world has a steward and a World Square notice, and both
/// seeded cities are listed and have a trust record.
pub proof fn lemma_seeded_world_is_trusted(v: SnapshotView, t1: u64, t2: u64, d: SeedDetailsView)
    ensures
        ({
            let w = world_safety_defaults(seeded_governance(v, t1, d), t2);
            &&& w.world_stewards.len() > 0
            &&& w.world_square_notices.len() > 0
            &&& lists_city(w.cities, "city:core-harbor"@)
            &&& lists_city(w.cities, "city:aurora-hub"@)
            &&& trust_names_city(w.city_trust, "city:core-harbor"@)
            &&& trust_names_city(w.city_trust, "city:aurora-hub"@)
        }),
{
    let s = seeded_governance(v, t1, d);
    let core = seeded_city(
        v.world.world_id,
        "city:core-harbor"@,
        "core-harbor"@,
        "Core Harbor"@,
        "Default city for local-first relay, shell, and governance testing."@,
        d.core_harbor_scene,
        d,
    );
    let aurora = seeded_city(
        v.world.world_id,
        "city:aurora-hub"@,
        "aurora-hub"@,
        "Aurora Hub"@,
        "Default governance city for lord-view notices and city operations."@,
        d.aurora_hub_scene,
        d,
    );
    lemma_upsert_lists(v.cities, core, "city:core-harbor"@);
    lemma_upsert_lists(upsert_city(v.cities, core), aurora, "city:core-harbor"@);
    let first = with_seed_trust(
        s.city_trust,
        s.cities,
        "city:core-harbor"@,
        "seed city"@,
        t2,
    );
    lemma_seed_trust_names(s.city_trust, s.cities, "city:core-harbor"@, "seed city"@, t2, "city:core-harbor"@);
    lemma_seed_trust_names(
        first,
        s.cities,
        "city:aurora-hub"@,
        "seed governance city"@,
        t2,
        "city:core-harbor"@,
    );
}

/// The world safety defaults are added once: ensuring them again changes
/// nothing.
pub proof fn lemma_world_safety_defaults_idempotent(v: SnapshotView, t1: u64, t2: u64)
    ensures
        world_safety_defaults(world_safety_defaults(v, t1), t2) == world_safety_defaults(v, t1),
{
    let w = world_safety_defaults(v, t1);
    let first = with_seed_trust(v.city_trust, v.cities, "city:core-harbor"@, "seed city"@, t1);
    lemma_seed_trust_names(v.city_trust, v.cities, "city:core-harbor"@, "seed city"@, t1, "city:core-harbor"@);
    lemma_seed_trust_names(
        first,
        v.cities,
        "city:aurora-hub"@,
        "seed governance city"@,
        t1,
        "city:core-harbor"@,
    );
    lemma_seed_trust_names(
        first,
        v.cities,
        "city:aurora-hub"@,
        "seed governance city"@,
        t1,
        "city:aurora-hub"@,
    );
}

/// Storing each city of a list whose ids are all new appends them in order.
proof fn lemma_upsert_all_fresh(acc: Seq<<CityState as View>::V>, cities: Seq<<CityState as View>::V>)
    requires
        keys_unique::<CityState>(acc + cities),
    ensures
        upsert_all(acc, cities) == acc + cities,
    decreases cities.len(),
{
    if cities.len() > 0 {
        let all = acc + cities;
        let c = cities[0];
        assert(all[acc.len() as int] == c);
        assert(!has_key::<CityState>(acc, c)) by {
            if has_key::<CityState>(acc, c) {
                let i = choose|i: int| 0 <= i < acc.len() && CityState::same_key(acc[i], c);
                assert(all[i] == acc[i]);
            }
        }
        let next = acc.push(c);
        assert(next + cities.drop_first() =~= all);
        lemma_upsert_all_fresh(next, cities.drop_first());
    } else {
        assert(acc + cities =~= acc);
    }
}

/// Loading a stored snapshot gives back the state that was stored: the
/// runtime then holds the snapshot's records exactly, and a snapshot taken
/// again equals the stored one.
pub proof fn lemma_store_load_round_trip(v: SnapshotView)
    requires
        cities_keyed(v.cities),
    ensures
        installed(snapshot_of(v)) == snapshot_of(v),
        snapshot_of(installed(snapshot_of(v))) == snapshot_of(v),
{
    let s = snapshot_of(v);
    lemma_stable_sort_unique::<CityState, CitiesBySlugAndId>(v.cities);
    lemma_upsert_all_fresh(seq![], s.cities);
    assert(seq![] + s.cities =~= s.cities);
    lemma_snapshot_laws(v);
    lemma_stable_sort_sorted_fixed::<CityState, CitiesBySlugAndId>(s.cities);
    lemma_stable_sort_sorted_fixed::<CityMembership, MembershipsByCityResidentTime>(s.memberships);
    lemma_stable_sort_sorted_fixed::<PublicRoomRecord, RoomsByCreation>(s.public_rooms);
    lemma_stable_sort_sorted_fixed::<IdentityId, IdentitiesByText>(s.world_stewards);
    lemma_stable_sort_sorted_fixed::<CityTrustRecord, TrustByCity>(s.city_trust);
    lemma_stable_sort_sorted_fixed::<WorldSquareNotice, NoticesByPosting>(s.world_square_notices);
    lemma_stable_sort_sorted_fixed::<SafetyAdvisory, AdvisoriesByIssue>(s.safety_advisories);
    lemma_stable_sort_sorted_fixed::<SafetyReport, ReportsBySubmission>(s.safety_reports);
    lemma_stable_sort_sorted_fixed::<ResidentSanction, SanctionsByIssue>(s.resident_sanctions);
    lemma_stable_sort_sorted_fixed::<RegistrationBlacklistEntry, BlacklistByKindHashTime>(
        s.registration_blacklist,
    );
}

/// Merging the same mirror into a merged snapshot again changes nothing.
pub proof fn lemma_merge_snapshot_again(p: SnapshotView, s: SnapshotView)
    ensures
        merge_snapshot_views(merge_snapshot_views(p, s), s) == merge_snapshot_views(p, s),
{
    lemma_merge_records_again::<CityState, CitiesBySlugAndId>(p.cities, s.cities);
    lemma_merge_records_again::<CityMembership, MembershipsByCityResidentTime>(
        p.memberships,
        s.memberships,
    );
    lemma_merge_records_again::<PublicRoomRecord, RoomsByCreation>(p.public_rooms, s.public_rooms);
    lemma_merge_records_again::<IdentityId, IdentitiesByText>(p.world_stewards, s.world_stewards);
    lemma_merge_records_again::<CityTrustRecord, TrustByCity>(p.city_trust, s.city_trust);
    lemma_merge_records_again::<WorldSquareNotice, NoticesByPosting>(
        p.world_square_notices,
        s.world_square_notices,
    );
    lemma_merge_records_again::<SafetyAdvisory, AdvisoriesByIssue>(
        p.safety_advisories,
        s.safety_advisories,
    );
    lemma_merge_records_again::<SafetyReport, ReportsBySubmission>(
        p.safety_reports,
        s.safety_reports,
    );
    lemma_merge_records_again::<ResidentSanction, SanctionsByIssue>(
        p.resident_sanctions,
        s.resident_sanctions,
    );
    lemma_merge_records_again::<RegistrationBlacklistEntry, BlacklistByKindHashTime>(
        p.registration_blacklist,
        s.registration_blacklist,
    );
}

/// Whether every list of the snapshot is empty.
pub open spec fn lists_empty(e: SnapshotView) -> bool {
    &&& e.cities.len() == 0
    &&& e.memberships.len() == 0
    &&& e.public_rooms.len() == 0
    &&& e.world_stewards.len() == 0
    &&& e.city_trust.len() == 0
    &&& e.world_square_notices.len() == 0
    &&& e.safety_advisories.len() == 0
    &&& e.safety_reports.len() == 0
    &&& e.resident_sanctions.len() == 0
    &&& e.registration_blacklist.len() == 0
}

/// Merging a snapshot with no records into a snapshot in merge order gives
/// that snapshot back.
pub proof fn lemma_merge_empty_identity(p: SnapshotView, e: SnapshotView)
    requires
        merge_ordered(p),
        lists_empty(e),
    ensures
        merge_snapshot_views(p, e) == p,
{
    lemma_stable_sort_sorted_fixed::<CityState, CitiesBySlugAndId>(p.cities);
    lemma_stable_sort_sorted_fixed::<CityMembership, MembershipsByCityResidentTime>(p.memberships);
    lemma_stable_sort_sorted_fixed::<PublicRoomRecord, RoomsByCreation>(p.public_rooms);
    lemma_stable_sort_sorted_fixed::<IdentityId, IdentitiesByText>(p.world_stewards);
    lemma_stable_sort_sorted_fixed::<CityTrustRecord, TrustByCity>(p.city_trust);
    lemma_stable_sort_sorted_fixed::<WorldSquareNotice, NoticesByPosting>(p.world_square_notices);
    lemma_stable_sort_sorted_fixed::<SafetyAdvisory, AdvisoriesByIssue>(p.safety_advisories);
    lemma_stable_sort_sorted_fixed::<SafetyReport, ReportsBySubmission>(p.safety_reports);
    lemma_stable_sort_sorted_fixed::<ResidentSanction, SanctionsByIssue>(p.resident_sanctions);
    lemma_stable_sort_sorted_fixed::<RegistrationBlacklistEntry, BlacklistByKindHashTime>(
        p.registration_blacklist,
    );
}

/// A published snapshot is in merge order.
pub proof fn lemma_snapshot_merge_ordered(v: SnapshotView)
    ensures
        merge_ordered(snapshot_of(v)),
{
    lemma_snapshot_laws(v);
}

/// Merging a snapshot with no records into a published snapshot gives that
/// snapshot back.
pub proof fn lemma_merge_empty_into_snapshot(v: SnapshotView, e: SnapshotView)
    requires
        lists_empty(e),
    ensures
        merge_snapshot_views(snapshot_of(v), e) == snapshot_of(v),
{
    lemma_snapshot_merge_ordered(v);
    lemma_merge_empty_identity(snapshot_of(v), e);
}

/// Seeding adds cities, memberships and rooms only: the world, its
/// portability settings and every other list stay as they were.
pub proof fn lemma_seed_keeps_the_rest(v: SnapshotView, now_ms: u64, d: SeedDetailsView)
    ensures
        ({
            let w = seeded_governance(v, now_ms, d);
            &&& w.world == v.world
            &&& w.portability == v.portability
            &&& w.world_stewards == v.world_stewards
            &&& w.city_trust == v.city_trust
            &&& w.world_square_notices == v.world_square_notices
            &&& w.safety_advisories == v.safety_advisories
            &&& w.safety_reports == v.safety_reports
            &&& w.resident_sanctions == v.resident_sanctions
            &&& w.registration_blacklist == v.registration_blacklist
        }),
{
}

/// A merge keeps the identity of every record the mirror has: for each of
/// the mirror's memberships the merge holds a membership of the same city
/// and the same resident; for each of its cities, rooms, trust records,
/// notices, advisories, reports, sanctions and blacklist entries, a record
/// with the same city id, room id, notice id, id or hash; and each of its
/// stewards.
pub proof fn lemma_merge_covers_the_mirror(p: SnapshotView, s: SnapshotView)
    ensures
        forall|i: int|
            #![trigger s.memberships[i]]
            0 <= i < s.memberships.len() ==> exists|k: int|
                0 <= k < merge_snapshot_views(p, s).memberships.len()
                    && #[trigger] merge_snapshot_views(p, s).memberships[k].city_id == s.memberships[i].city_id
                    && merge_snapshot_views(p, s).memberships[k].resident_id == s.memberships[i].resident_id,
        forall|i: int|
            #![trigger s.cities[i]]
            0 <= i < s.cities.len() ==> exists|k: int|
                0 <= k < merge_snapshot_views(p, s).cities.len()
                    && #[trigger] merge_snapshot_views(p, s).cities[k].city_id == s.cities[i].city_id,
        forall|i: int|
            #![trigger s.public_rooms[i]]
            0 <= i < s.public_rooms.len() ==> exists|k: int|
                0 <= k < merge_snapshot_views(p, s).public_rooms.len()
                    && #[trigger] merge_snapshot_views(p, s).public_rooms[k].room_id == s.public_rooms[i].room_id,
        forall|i: int|
            #![trigger s.city_trust[i]]
            0 <= i < s.city_trust.len() ==> exists|k: int|
                0 <= k < merge_snapshot_views(p, s).city_trust.len()
                    && #[trigger] merge_snapshot_views(p, s).city_trust[k].city_id == s.city_trust[i].city_id,
        forall|i: int|
            #![trigger s.world_square_notices[i]]
            0 <= i < s.world_square_notices.len() ==> exists|k: int|
                0 <= k < merge_snapshot_views(p, s).world_square_notices.len()
                    && #[trigger] merge_snapshot_views(p, s).world_square_notices[k].notice_id == s.world_square_notices[i].notice_id,
        forall|i: int|
            #![trigger s.safety_advisories[i]]
            0 <= i < s.safety_advisories.len() ==> exists|k: int|
                0 <= k < merge_snapshot_views(p, s).safety_advisories.len()
                    && #[trigger] merge_snapshot_views(p, s).safety_advisories[k].0 == s.safety_advisories[i].0,
        forall|i: int|
            #![trigger s.safety_reports[i]]
            0 <= i < s.safety_reports.len() ==> exists|k: int|
                0 <= k < merge_snapshot_views(p, s).safety_reports.len()
                    && #[trigger] merge_snapshot_views(p, s).safety_reports[k].0 == s.safety_reports[i].0,
        forall|i: int|
            #![trigger s.resident_sanctions[i]]
            0 <= i < s.resident_sanctions.len() ==> exists|k: int|
                0 <= k < merge_snapshot_views(p, s).resident_sanctions.len()
                    && #[trigger] merge_snapshot_views(p, s).resident_sanctions[k].0 == s.resident_sanctions[i].0,
        forall|i: int|
            #![trigger s.registration_blacklist[i]]
            0 <= i < s.registration_blacklist.len() ==> exists|k: int|
                0 <= k < merge_snapshot_views(p, s).registration_blacklist.len()
                    && #[trigger] merge_snapshot_views(p, s).registration_blacklist[k].hash_sha256 == s.registration_blacklist[i].hash_sha256,
        forall|i: int|
            #![trigger s.world_stewards[i]]
            0 <= i < s.world_stewards.len() ==> merge_snapshot_views(p, s).world_stewards.contains(
                s.world_stewards[i],
            ),
{
    let m = merge_snapshot_views(p, s);
    lemma_merge_snapshot_laws(p, s);
    assert forall|i: int| #![trigger s.memberships[i]] 0 <= i < s.memberships.len() implies exists|k: int|
        0 <= k < m.memberships.len() && #[trigger] m.memberships[k].city_id == s.memberships[i].city_id && m.memberships[k].resident_id == s.memberships[i].resident_id by {
        assert(has_key::<CityMembership>(m.memberships, s.memberships[i]));
        let k = choose|k: int| 0 <= k < m.memberships.len() && CityMembership::same_key(m.memberships[k], s.memberships[i]);
        assert(#[trigger] m.memberships[k].city_id == s.memberships[i].city_id && m.memberships[k].resident_id == s.memberships[i].resident_id);
    }
    assert forall|i: int| #![trigger s.cities[i]] 0 <= i < s.cities.len() implies exists|k: int|
        0 <= k < m.cities.len() && #[trigger] m.cities[k].city_id == s.cities[i].city_id by {
        assert(has_key::<CityState>(m.cities, s.cities[i]));
        let k = choose|k: int| 0 <= k < m.cities.len() && CityState::same_key(m.cities[k], s.cities[i]);
        assert(#[trigger] m.cities[k].city_id == s.cities[i].city_id);
    }
    assert forall|i: int| #![trigger s.public_rooms[i]] 0 <= i < s.public_rooms.len() implies exists|k: int|
        0 <= k < m.public_rooms.len() && #[trigger] m.public_rooms[k].room_id == s.public_rooms[i].room_id by {
        assert(has_key::<PublicRoomRecord>(m.public_rooms, s.public_rooms[i]));
        let k = choose|k: int| 0 <= k < m.public_rooms.len() && PublicRoomRecord::same_key(m.public_rooms[k], s.public_rooms[i]);
        assert(#[trigger] m.public_rooms[k].room_id == s.public_rooms[i].room_id);
    }
    assert forall|i: int| #![trigger s.city_trust[i]] 0 <= i < s.city_trust.len() implies exists|k: int|
        0 <= k < m.city_trust.len() && #[trigger] m.city_trust[k].city_id == s.city_trust[i].city_id by {
        assert(has_key::<CityTrustRecord>(m.city_trust, s.city_trust[i]));
        let k = choose|k: int| 0 <= k < m.city_trust.len() && CityTrustRecord::same_key(m.city_trust[k], s.city_trust[i]);
        assert(#[trigger] m.city_trust[k].city_id == s.city_trust[i].city_id);
    }
    assert forall|i: int| #![trigger s.world_square_notices[i]] 0 <= i < s.world_square_notices.len() implies exists|k: int|
        0 <= k < m.world_square_notices.len() && #[trigger] m.world_square_notices[k].notice_id == s.world_square_notices[i].notice_id by {
        assert(has_key::<WorldSquareNotice>(m.world_square_notices, s.world_square_notices[i]));
        let k = choose|k: int| 0 <= k < m.world_square_notices.len() && WorldSquareNotice::same_key(m.world_square_notices[k], s.world_square_notices[i]);
        assert(#[trigger] m.world_square_notices[k].notice_id == s.world_square_notices[i].notice_id);
    }
    assert forall|i: int| #![trigger s.safety_advisories[i]] 0 <= i < s.safety_advisories.len() implies exists|k: int|
        0 <= k < m.safety_advisories.len() && #[trigger] m.safety_advisories[k].0 == s.safety_advisories[i].0 by {
        assert(has_key::<SafetyAdvisory>(m.safety_advisories, s.safety_advisories[i]));
        let k = choose|k: int| 0 <= k < m.safety_advisories.len() && SafetyAdvisory::same_key(m.safety_advisories[k], s.safety_advisories[i]);
        assert(#[trigger] m.safety_advisories[k].0 == s.safety_advisories[i].0);
    }
    assert forall|i: int| #![trigger s.safety_reports[i]] 0 <= i < s.safety_reports.len() implies exists|k: int|
        0 <= k < m.safety_reports.len() && #[trigger] m.safety_reports[k].0 == s.safety_reports[i].0 by {
        assert(has_key::<SafetyReport>(m.safety_reports, s.safety_reports[i]));
        let k = choose|k: int| 0 <= k < m.safety_reports.len() && SafetyReport::same_key(m.safety_reports[k], s.safety_reports[i]);
        assert(#[trigger] m.safety_reports[k].0 == s.safety_reports[i].0);
    }
    assert forall|i: int| #![trigger s.resident_sanctions[i]] 0 <= i < s.resident_sanctions.len() implies exists|k: int|
        0 <= k < m.resident_sanctions.len() && #[trigger] m.resident_sanctions[k].0 == s.resident_sanctions[i].0 by {
        assert(has_key::<ResidentSanction>(m.resident_sanctions, s.resident_sanctions[i]));
        let k = choose|k: int| 0 <= k < m.resident_sanctions.len() && ResidentSanction::same_key(m.resident_sanctions[k], s.resident_sanctions[i]);
        assert(#[trigger] m.resident_sanctions[k].0 == s.resident_sanctions[i].0);
    }
    assert forall|i: int| #![trigger s.registration_blacklist[i]] 0 <= i < s.registration_blacklist.len() implies exists|k: int|
        0 <= k < m.registration_blacklist.len() && #[trigger] m.registration_blacklist[k].hash_sha256 == s.registration_blacklist[i].hash_sha256 by {
        assert(has_key::<RegistrationBlacklistEntry>(m.registration_blacklist, s.registration_blacklist[i]));
        let k = choose|k: int| 0 <= k < m.registration_blacklist.len() && RegistrationBlacklistEntry::same_key(m.registration_blacklist[k], s.registration_blacklist[i]);
        assert(#[trigger] m.registration_blacklist[k].hash_sha256 == s.registration_blacklist[i].hash_sha256);
    }
    assert forall|i: int| #![trigger s.world_stewards[i]] 0 <= i < s.world_stewards.len() implies m.world_stewards.contains(
        s.world_stewards[i],
    ) by {
        assert(has_key::<IdentityId>(m.world_stewards, s.world_stewards[i]));
        let k = choose|k: int| 0 <= k < m.world_stewards.len() && IdentityId::same_key(m.world_stewards[k], s.world_stewards[i]);
        assert(m.world_stewards[k] == s.world_stewards[i]);
    }
}

/// A merge adds no second membership of one resident in one city, and no
/// second city with one id, where the primary had none.
pub proof fn lemma_merge_adds_no_duplicate_identity(p: SnapshotView, s: SnapshotView)
    ensures
        (forall|i: int, j: int|
            0 <= i < j < p.memberships.len() ==> !(p.memberships[i].city_id == p.memberships[j].city_id
                && p.memberships[i].resident_id == p.memberships[j].resident_id)) ==> forall|i: int, j: int|
            0 <= i < j < merge_snapshot_views(p, s).memberships.len() ==> !(
            merge_snapshot_views(p, s).memberships[i].city_id == merge_snapshot_views(p, s).memberships[j].city_id
                && merge_snapshot_views(p, s).memberships[i].resident_id
                == merge_snapshot_views(p, s).memberships[j].resident_id),
        (forall|i: int, j: int|
            0 <= i < j < p.cities.len() ==> p.cities[i].city_id != p.cities[j].city_id) ==> forall|
            i: int,
            j: int,
        |
            0 <= i < j < merge_snapshot_views(p, s).cities.len() ==> merge_snapshot_views(p, s).cities[i].city_id
                != merge_snapshot_views(p, s).cities[j].city_id,
{
    lemma_merge_snapshot_laws(p, s);
    let m = merge_snapshot_views(p, s);
    if forall|i: int, j: int|
        0 <= i < j < p.memberships.len() ==> !(p.memberships[i].city_id == p.memberships[j].city_id
            && p.memberships[i].resident_id == p.memberships[j].resident_id) {
        assert(keys_unique::<CityMembership>(p.memberships));
        assert(keys_unique::<CityMembership>(m.memberships));
        assert forall|i: int, j: int| 0 <= i < j < m.memberships.len() implies !(
        m.memberships[i].city_id == m.memberships[j].city_id && m.memberships[i].resident_id
            == m.memberships[j].resident_id) by {
            assert(!CityMembership::same_key(m.memberships[i], m.memberships[j]));
        }
    }
    if forall|i: int, j: int| 0 <= i < j < p.cities.len() ==> p.cities[i].city_id != p.cities[j].city_id {
        assert(keys_unique::<CityState>(p.cities));
        assert(keys_unique::<CityState>(m.cities));
        assert forall|i: int, j: int| 0 <= i < j < m.cities.len() implies m.cities[i].city_id
            != m.cities[j].city_id by {
            assert(!CityState::same_key(m.cities[i], m.cities[j]));
        }
    }
}

/// Ensuring the world safety defaults keeps what the world has: stewards and
/// notices already there stay as they are (`rsaga` and the welcome notice
/// come only into an empty list), existing trust records stay first and in
/// order with at most the two seeded cities' records after them, and every
/// other list is untouched.
pub proof fn lemma_safety_defaults_keep_what_is_there(v: SnapshotView, now_ms: u64)
    ensures
        ({
            let w = world_safety_defaults(v, now_ms);
            &&& v.world_stewards.len() > 0 ==> w.world_stewards == v.world_stewards
            &&& v.world_stewards.len() == 0 ==> w.world_stewards == seq!["rsaga"@]
            &&& v.world_square_notices.len() > 0 ==> w.world_square_notices == v.world_square_notices
            &&& v.world_square_notices.len() == 0 ==> w.world_square_notices.len() == 1
            &&& v.city_trust.len() <= w.city_trust.len() <= v.city_trust.len() + 2
            &&& w.city_trust.take(v.city_trust.len() as int) == v.city_trust
            &&& w.world == v.world
            &&& w.portability == v.portability
            &&& w.cities == v.cities
            &&& w.memberships == v.memberships
            &&& w.public_rooms == v.public_rooms
            &&& w.safety_advisories == v.safety_advisories
            &&& w.safety_reports == v.safety_reports
            &&& w.resident_sanctions == v.resident_sanctions
            &&& w.registration_blacklist == v.registration_blacklist
        }),
{
    let w = world_safety_defaults(v, now_ms);
    let first = with_seed_trust(v.city_trust, v.cities, "city:core-harbor"@, "seed city"@, now_ms);
    assert(first.take(v.city_trust.len() as int) =~= v.city_trust);
    assert(w.city_trust.take(first.len() as int) =~= first);
    assert(w.city_trust.take(v.city_trust.len() as int) =~= first.take(v.city_trust.len() as int));
}

/// Seeding keeps the rooms the world had, in order, and adds two open rooms
/// created by `rsaga` at the seeding time, each in a seeded city; every
/// membership it adds is active and joined at the seeding time.
pub proof fn lemma_seeded_rooms_are_open(v: SnapshotView, now_ms: u64, d: SeedDetailsView)
    ensures
        ({
            let w = seeded_governance(v, now_ms, d);
            &&& w.public_rooms.len() == v.public_rooms.len() + 2
            &&& w.public_rooms.take(v.public_rooms.len() as int) == v.public_rooms
            &&& forall|i: int|
                v.public_rooms.len() <= i < w.public_rooms.len() ==> {
                    &&& !(#[trigger] w.public_rooms[i]).frozen
                    &&& w.public_rooms[i].created_by == "rsaga"@
                    &&& w.public_rooms[i].created_at_ms == now_ms
                    &&& lists_city(w.cities, w.public_rooms[i].city_id)
                }
            &&& w.memberships.len() == v.memberships.len() + 5
            &&& w.memberships.take(v.memberships.len() as int) == v.memberships
            &&& forall|i: int|
                v.memberships.len() <= i < w.memberships.len() ==> {
                    &&& (#[trigger] w.memberships[i]).state == MembershipState::Active
                    &&& w.memberships[i].joined_at_ms == now_ms
                    &&& lists_city(w.cities, w.memberships[i].city_id)
                }
        }),
{
    let w = seeded_governance(v, now_ms, d);
    let core = core_harbor_city(v.world.world_id, d);
    let aurora = aurora_hub_city(v.world.world_id, d);
    lemma_upsert_lists(v.cities, core, "city:core-harbor"@);
    lemma_upsert_lists(upsert_city(v.cities, core), aurora, "city:core-harbor"@);
    assert(lists_city(w.cities, "city:core-harbor"@));
    assert(lists_city(w.cities, "city:aurora-hub"@));
    assert(w.public_rooms.take(v.public_rooms.len() as int) =~= v.public_rooms);
    assert(w.memberships.take(v.memberships.len() as int) =~= v.memberships);
    assert forall|i: int| v.public_rooms.len() <= i < w.public_rooms.len() implies {
        &&& !(#[trigger] w.public_rooms[i]).frozen
        &&& w.public_rooms[i].created_by == "rsaga"@
        &&& w.public_rooms[i].created_at_ms == now_ms
        &&& lists_city(w.cities, w.public_rooms[i].city_id)
    } by {
        if i == v.public_rooms.len() {
            assert(w.public_rooms[i] == lobby_room(now_ms, d));
        } else {
            assert(w.public_rooms[i] == announcements_room(now_ms, d));
        }
    }
    assert forall|i: int| v.memberships.len() <= i < w.memberships.len() implies {
        &&& (#[trigger] w.memberships[i]).state == MembershipState::Active
        &&& w.memberships[i].joined_at_ms == now_ms
        &&& lists_city(w.cities, w.memberships[i].city_id)
    } by {
        let k = i - v.memberships.len();
        if k < 3 {
            assert(w.memberships[i].city_id == "city:core-harbor"@);
        } else {
            assert(w.memberships[i].city_id == "city:aurora-hub"@);
        }
    }
}

} // verus!
