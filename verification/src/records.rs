//! The governance records of the world: cities, memberships, public rooms,
//! trust, notices and safety records, each with its mathematical view, its
//! identity key and the orders in which lists of them are kept.
use vstd::prelude::*;

use crate::order::{
    compare_text, lemma_text_le_antisym, lemma_text_le_refl, lemma_text_le_total,
    lemma_text_le_trans, text_le, text_lt, RecordKey, RecordOrder,
};

verus! {

/// Records that can be copied with their view kept.
pub trait Duplicate: View + Sized {
    fn duplicate(&self) -> (r: Self)
        ensures
            r@ == self@,
    ;
}

#[derive(Debug, PartialEq, Eq)]
pub struct IdentityId(pub String);

#[derive(Debug, PartialEq, Eq)]
pub struct CityId(pub String);

#[derive(Debug, PartialEq, Eq)]
pub struct ConversationId(pub String);

impl View for IdentityId {
    type V = Seq<char>;

    open spec fn view(&self) -> Seq<char> {
        self.0@
    }
}

impl View for CityId {
    type V = Seq<char>;

    open spec fn view(&self) -> Seq<char> {
        self.0@
    }
}

impl View for ConversationId {
    type V = Seq<char>;

    open spec fn view(&self) -> Seq<char> {
        self.0@
    }
}

impl Duplicate for IdentityId {
    fn duplicate(&self) -> (r: Self) {
        IdentityId(self.0.clone())
    }
}

impl Duplicate for CityId {
    fn duplicate(&self) -> (r: Self) {
        CityId(self.0.clone())
    }
}

impl Duplicate for ConversationId {
    fn duplicate(&self) -> (r: Self) {
        ConversationId(self.0.clone())
    }
}

impl Clone for IdentityId {
    fn clone(&self) -> (r: Self)
        ensures
            r@ == self@,
    {
        self.duplicate()
    }
}

impl Clone for CityId {
    fn clone(&self) -> (r: Self)
        ensures
            r@ == self@,
    {
        self.duplicate()
    }
}

impl Clone for ConversationId {
    fn clone(&self) -> (r: Self)
        ensures
            r@ == self@,
    {
        self.duplicate()
    }
}

pub fn duplicate_optional_text(v: &Option<String>) -> (r: Option<String>)
    ensures
        optional_text(r) == optional_text(*v),
{
    match v {
        Some(s) => Some(s.clone()),
        None => None,
    }
}

pub fn duplicate_optional_identity(v: &Option<IdentityId>) -> (r: Option<IdentityId>)
    ensures
        optional_identity(r) == optional_identity(*v),
{
    match v {
        Some(s) => Some(s.duplicate()),
        None => None,
    }
}

pub open spec fn optional_text(v: Option<String>) -> Option<Seq<char>> {
    match v {
        Some(s) => Some(s@),
        None => None,
    }
}

pub open spec fn optional_identity(v: Option<IdentityId>) -> Option<Seq<char>> {
    match v {
        Some(s) => Some(s@),
        None => None,
    }
}

pub open spec fn texts_of(v: Seq<String>) -> Seq<Seq<char>> {
    v.map_values(|s: String| s@)
}

pub fn duplicate_texts(v: &Vec<String>) -> (r: Vec<String>)
    ensures
        texts_of(r@) == texts_of(v@),
{
    let mut r: Vec<String> = Vec::new();
    let mut i: usize = 0;
    while i < v.len()
        invariant
            i <= v@.len(),
            texts_of(r@) == texts_of(v@).take(i as int),
        decreases v@.len() - i,
    {
        let ghost before = r@;
        let c = v[i].clone();
        assert(c@ == v@[i as int]@);
        r.push(c);
        assert(r@ == before.push(c));
        i = i + 1;
        assert(texts_of(r@) =~= texts_of(before).push(c@));
        assert(texts_of(r@) =~= texts_of(v@).take(i as int));
    }
    assert(texts_of(v@).take(i as int) =~= texts_of(v@));
    r
}

#[derive(Clone, Copy, Debug, PartialEq, Eq)]
pub enum FederationPolicy {
    Open,
    Isolated,
}

#[derive(Clone, Copy, Debug, PartialEq, Eq)]
pub enum RelayBudgetHint {
    Balanced,
}

#[derive(Clone, Copy, Debug, PartialEq, Eq)]
pub enum CityRole {
    Lord,
    Steward,
    Resident,
}

#[derive(Clone, Copy, Debug, PartialEq, Eq)]
pub enum MembershipState {
    Active,
    PendingApproval,
}

#[derive(Clone, Copy, Debug, PartialEq, Eq)]
pub enum CityTrustState {
    Healthy,
    UnderReview,
    Quarantined,
    Isolated,
}

/// The world this gateway belongs to.
#[derive(Debug, PartialEq, Eq)]
pub struct WorldProfile {
    pub world_id: String,
    /// The world's other settings (its title and the rest), as the JSON text
    /// of an object; the library carries them without reading them.
    pub details: String,
}

pub struct WorldView {
    pub world_id: Seq<char>,
    pub details: Seq<char>,
}

impl View for WorldProfile {
    type V = WorldView;

    open spec fn view(&self) -> WorldView {
        WorldView { world_id: self.world_id@, details: self.details@ }
    }
}

impl Duplicate for WorldProfile {
    fn duplicate(&self) -> (r: Self) {
        WorldProfile { world_id: self.world_id.clone(), details: self.details.clone() }
    }
}

impl Clone for WorldProfile {
    fn clone(&self) -> (r: Self)
        ensures
            r@ == self@,
    {
        self.duplicate()
    }
}

#[derive(Debug, PartialEq, Eq)]
pub struct CityProfile {
    pub city_id: CityId,
    pub world_id: String,
    pub slug: String,
    pub title: String,
    pub description: String,
    pub resident_portable: bool,
    pub approval_required: bool,
    pub public_room_discovery_enabled: bool,
    pub federation_policy: FederationPolicy,
    pub relay_budget_hint: RelayBudgetHint,
    /// The city's scene, as JSON text, when it has one.
    pub scene: Option<String>,
    /// The city's message retention policy, as JSON text.
    pub retention_policy: String,
}

#[derive(Debug, PartialEq, Eq)]
pub struct CityState {
    pub profile: CityProfile,
    /// The city's feature switches, as JSON text.
    pub features: String,
}

pub struct CityView {
    pub city_id: Seq<char>,
    pub world_id: Seq<char>,
    pub slug: Seq<char>,
    pub title: Seq<char>,
    pub description: Seq<char>,
    pub resident_portable: bool,
    pub approval_required: bool,
    pub public_room_discovery_enabled: bool,
    pub federation_policy: FederationPolicy,
    pub relay_budget_hint: RelayBudgetHint,
    pub scene: Option<Seq<char>>,
    pub retention_policy: Seq<char>,
    pub features: Seq<char>,
}

impl View for CityState {
    type V = CityView;

    open spec fn view(&self) -> CityView {
        CityView {
            city_id: self.profile.city_id@,
            world_id: self.profile.world_id@,
            slug: self.profile.slug@,
            title: self.profile.title@,
            description: self.profile.description@,
            resident_portable: self.profile.resident_portable,
            approval_required: self.profile.approval_required,
            public_room_discovery_enabled: self.profile.public_room_discovery_enabled,
            federation_policy: self.profile.federation_policy,
            relay_budget_hint: self.profile.relay_budget_hint,
            scene: optional_text(self.profile.scene),
            retention_policy: self.profile.retention_policy@,
            features: self.features@,
        }
    }
}

impl Duplicate for CityState {
    fn duplicate(&self) -> (r: Self) {
        CityState {
            profile: CityProfile {
                city_id: self.profile.city_id.duplicate(),
                world_id: self.profile.world_id.clone(),
                slug: self.profile.slug.clone(),
                title: self.profile.title.clone(),
                description: self.profile.description.clone(),
                resident_portable: self.profile.resident_portable,
                approval_required: self.profile.approval_required,
                public_room_discovery_enabled: self.profile.public_room_discovery_enabled,
                federation_policy: self.profile.federation_policy,
                relay_budget_hint: self.profile.relay_budget_hint,
                scene: duplicate_optional_text(&self.profile.scene),
                retention_policy: self.profile.retention_policy.clone(),
            },
            features: self.features.clone(),
        }
    }
}

impl Clone for CityState {
    fn clone(&self) -> (r: Self)
        ensures
            r@ == self@,
    {
        self.duplicate()
    }
}

#[derive(Debug, PartialEq, Eq)]
pub struct CityMembership {
    pub city_id: CityId,
    pub resident_id: IdentityId,
    pub role: CityRole,
    pub state: MembershipState,
    pub joined_at_ms: u64,
    pub added_by: Option<IdentityId>,
}

pub struct MembershipView {
    pub city_id: Seq<char>,
    pub resident_id: Seq<char>,
    pub role: CityRole,
    pub state: MembershipState,
    pub joined_at_ms: u64,
    pub added_by: Option<Seq<char>>,
}

impl View for CityMembership {
    type V = MembershipView;

    open spec fn view(&self) -> MembershipView {
        MembershipView {
            city_id: self.city_id@,
            resident_id: self.resident_id@,
            role: self.role,
            state: self.state,
            joined_at_ms: self.joined_at_ms,
            added_by: optional_identity(self.added_by),
        }
    }
}

impl Duplicate for CityMembership {
    fn duplicate(&self) -> (r: Self) {
        CityMembership {
            city_id: self.city_id.duplicate(),
            resident_id: self.resident_id.duplicate(),
            role: self.role,
            state: self.state,
            joined_at_ms: self.joined_at_ms,
            added_by: duplicate_optional_identity(&self.added_by),
        }
    }
}

impl Clone for CityMembership {
    fn clone(&self) -> (r: Self)
        ensures
            r@ == self@,
    {
        self.duplicate()
    }
}

#[derive(Debug, PartialEq, Eq)]
pub struct PublicRoomRecord {
    pub room_id: ConversationId,
    pub city_id: CityId,
    pub slug: String,
    pub title: String,
    pub description: String,
    pub created_by: IdentityId,
    pub created_at_ms: u64,
    pub frozen: bool,
    /// The room's scene, as JSON text, when it has one.
    pub scene: Option<String>,
}

pub struct PublicRoomView {
    pub room_id: Seq<char>,
    pub city_id: Seq<char>,
    pub slug: Seq<char>,
    pub title: Seq<char>,
    pub description: Seq<char>,
    pub created_by: Seq<char>,
    pub created_at_ms: u64,
    pub frozen: bool,
    pub scene: Option<Seq<char>>,
}

impl View for PublicRoomRecord {
    type V = PublicRoomView;

    open spec fn view(&self) -> PublicRoomView {
        PublicRoomView {
            room_id: self.room_id@,
            city_id: self.city_id@,
            slug: self.slug@,
            title: self.title@,
            description: self.description@,
            created_by: self.created_by@,
            created_at_ms: self.created_at_ms,
            frozen: self.frozen,
            scene: optional_text(self.scene),
        }
    }
}

impl Duplicate for PublicRoomRecord {
    fn duplicate(&self) -> (r: Self) {
        PublicRoomRecord {
            room_id: self.room_id.duplicate(),
            city_id: self.city_id.duplicate(),
            slug: self.slug.clone(),
            title: self.title.clone(),
            description: self.description.clone(),
            created_by: self.created_by.duplicate(),
            created_at_ms: self.created_at_ms,
            frozen: self.frozen,
            scene: duplicate_optional_text(&self.scene),
        }
    }
}

impl Clone for PublicRoomRecord {
    fn clone(&self) -> (r: Self)
        ensures
            r@ == self@,
    {
        self.duplicate()
    }
}

#[derive(Debug, PartialEq, Eq)]
pub struct CityTrustRecord {
    pub city_id: CityId,
    pub state: CityTrustState,
    pub reason: Option<String>,
    pub updated_by: IdentityId,
    pub updated_at_ms: u64,
}

pub struct CityTrustView {
    pub city_id: Seq<char>,
    pub state: CityTrustState,
    pub reason: Option<Seq<char>>,
    pub updated_by: Seq<char>,
    pub updated_at_ms: u64,
}

impl View for CityTrustRecord {
    type V = CityTrustView;

    open spec fn view(&self) -> CityTrustView {
        CityTrustView {
            city_id: self.city_id@,
            state: self.state,
            reason: optional_text(self.reason),
            updated_by: self.updated_by@,
            updated_at_ms: self.updated_at_ms,
        }
    }
}

impl Duplicate for CityTrustRecord {
    fn duplicate(&self) -> (r: Self) {
        CityTrustRecord {
            city_id: self.city_id.duplicate(),
            state: self.state,
            reason: duplicate_optional_text(&self.reason),
            updated_by: self.updated_by.duplicate(),
            updated_at_ms: self.updated_at_ms,
        }
    }
}

impl Clone for CityTrustRecord {
    fn clone(&self) -> (r: Self)
        ensures
            r@ == self@,
    {
        self.duplicate()
    }
}

#[derive(Debug, PartialEq, Eq)]
pub struct WorldSquareNotice {
    pub notice_id: String,
    pub title: String,
    pub body: String,
    pub author_id: IdentityId,
    pub posted_at_ms: u64,
    pub severity: String,
    pub tags: Vec<String>,
}

pub struct NoticeView {
    pub notice_id: Seq<char>,
    pub title: Seq<char>,
    pub body: Seq<char>,
    pub author_id: Seq<char>,
    pub posted_at_ms: u64,
    pub severity: Seq<char>,
    pub tags: Seq<Seq<char>>,
}

impl View for WorldSquareNotice {
    type V = NoticeView;

    open spec fn view(&self) -> NoticeView {
        NoticeView {
            notice_id: self.notice_id@,
            title: self.title@,
            body: self.body@,
            author_id: self.author_id@,
            posted_at_ms: self.posted_at_ms,
            severity: self.severity@,
            tags: texts_of(self.tags@),
        }
    }
}

impl Duplicate for WorldSquareNotice {
    fn duplicate(&self) -> (r: Self) {
        WorldSquareNotice {
            notice_id: self.notice_id.clone(),
            title: self.title.clone(),
            body: self.body.clone(),
            author_id: self.author_id.duplicate(),
            posted_at_ms: self.posted_at_ms,
            severity: self.severity.clone(),
            tags: duplicate_texts(&self.tags),
        }
    }
}

impl Clone for WorldSquareNotice {
    fn clone(&self) -> (r: Self)
        ensures
            r@ == self@,
    {
        self.duplicate()
    }
}

/// A world safety advisory: its id and time, which the governance lists read, and
/// its other fields as the JSON text of an object, which they carry.
#[derive(Debug, PartialEq, Eq)]
pub struct SafetyAdvisory {
    pub advisory_id: String,
    pub issued_at_ms: u64,
    pub details: String,
}

/// A world safety report: its id and time, which the governance lists read, and
/// its other fields as the JSON text of an object, which they carry.
#[derive(Debug, PartialEq, Eq)]
pub struct SafetyReport {
    pub report_id: String,
    pub submitted_at_ms: u64,
    pub details: String,
}

/// A resident sanction: its id and time, which the governance lists read, and
/// its other fields as the JSON text of an object, which they carry.
#[derive(Debug, PartialEq, Eq)]
pub struct ResidentSanction {
    pub sanction_id: String,
    pub issued_at_ms: u64,
    pub details: String,
}

impl View for SafetyAdvisory {
    type V = (Seq<char>, u64, Seq<char>);

    open spec fn view(&self) -> (Seq<char>, u64, Seq<char>) {
        (self.advisory_id@, self.issued_at_ms, self.details@)
    }
}

impl View for SafetyReport {
    type V = (Seq<char>, u64, Seq<char>);

    open spec fn view(&self) -> (Seq<char>, u64, Seq<char>) {
        (self.report_id@, self.submitted_at_ms, self.details@)
    }
}

impl View for ResidentSanction {
    type V = (Seq<char>, u64, Seq<char>);

    open spec fn view(&self) -> (Seq<char>, u64, Seq<char>) {
        (self.sanction_id@, self.issued_at_ms, self.details@)
    }
}

impl Duplicate for SafetyAdvisory {
    fn duplicate(&self) -> (r: Self) {
        SafetyAdvisory {
            advisory_id: self.advisory_id.clone(),
            issued_at_ms: self.issued_at_ms,
            details: self.details.clone(),
        }
    }
}

impl Duplicate for SafetyReport {
    fn duplicate(&self) -> (r: Self) {
        SafetyReport {
            report_id: self.report_id.clone(),
            submitted_at_ms: self.submitted_at_ms,
            details: self.details.clone(),
        }
    }
}

impl Duplicate for ResidentSanction {
    fn duplicate(&self) -> (r: Self) {
        ResidentSanction {
            sanction_id: self.sanction_id.clone(),
            issued_at_ms: self.issued_at_ms,
            details: self.details.clone(),
        }
    }
}

impl Clone for SafetyAdvisory {
    fn clone(&self) -> (r: Self)
        ensures
            r@ == self@,
    {
        self.duplicate()
    }
}

impl Clone for SafetyReport {
    fn clone(&self) -> (r: Self)
        ensures
            r@ == self@,
    {
        self.duplicate()
    }
}

impl Clone for ResidentSanction {
    fn clone(&self) -> (r: Self)
        ensures
            r@ == self@,
    {
        self.duplicate()
    }
}

#[derive(Debug, PartialEq, Eq)]
pub struct RegistrationBlacklistEntry {
    pub entry_id: String,
    pub resident_id: IdentityId,
    pub report_id: Option<String>,
    pub handle_kind: String,
    pub hash_sha256: String,
    pub reason: String,
    pub added_by: IdentityId,
    pub added_at_ms: u64,
}

pub struct BlacklistView {
    pub entry_id: Seq<char>,
    pub resident_id: Seq<char>,
    pub report_id: Option<Seq<char>>,
    pub handle_kind: Seq<char>,
    pub hash_sha256: Seq<char>,
    pub reason: Seq<char>,
    pub added_by: Seq<char>,
    pub added_at_ms: u64,
}

impl View for RegistrationBlacklistEntry {
    type V = BlacklistView;

    open spec fn view(&self) -> BlacklistView {
        BlacklistView {
            entry_id: self.entry_id@,
            resident_id: self.resident_id@,
            report_id: optional_text(self.report_id),
            handle_kind: self.handle_kind@,
            hash_sha256: self.hash_sha256@,
            reason: self.reason@,
            added_by: self.added_by@,
            added_at_ms: self.added_at_ms,
        }
    }
}

impl Duplicate for RegistrationBlacklistEntry {
    fn duplicate(&self) -> (r: Self) {
        RegistrationBlacklistEntry {
            entry_id: self.entry_id.clone(),
            resident_id: self.resident_id.duplicate(),
            report_id: duplicate_optional_text(&self.report_id),
            handle_kind: self.handle_kind.clone(),
            hash_sha256: self.hash_sha256.clone(),
            reason: self.reason.clone(),
            added_by: self.added_by.duplicate(),
            added_at_ms: self.added_at_ms,
        }
    }
}

impl Clone for RegistrationBlacklistEntry {
    fn clone(&self) -> (r: Self)
        ensures
            r@ == self@,
    {
        self.duplicate()
    }
}

// Identity keys.
impl RecordKey for CityState {
    open spec fn same_key(a: CityView, b: CityView) -> bool {
        a.city_id == b.city_id
    }

    proof fn lemma_same_key_refl(a: CityView) {
    }

    proof fn lemma_same_key_sym(a: CityView, b: CityView) {
    }

    fn same_key_exec(&self, other: &Self) -> (r: bool) {
        self.profile.city_id.0 == other.profile.city_id.0
    }
}

impl RecordKey for CityMembership {
    open spec fn same_key(a: MembershipView, b: MembershipView) -> bool {
        a.city_id == b.city_id && a.resident_id == b.resident_id
    }

    proof fn lemma_same_key_refl(a: MembershipView) {
    }

    proof fn lemma_same_key_sym(a: MembershipView, b: MembershipView) {
    }

    fn same_key_exec(&self, other: &Self) -> (r: bool) {
        self.city_id.0 == other.city_id.0 && self.resident_id.0 == other.resident_id.0
    }
}

impl RecordKey for PublicRoomRecord {
    open spec fn same_key(a: PublicRoomView, b: PublicRoomView) -> bool {
        a.room_id == b.room_id
    }

    proof fn lemma_same_key_refl(a: PublicRoomView) {
    }

    proof fn lemma_same_key_sym(a: PublicRoomView, b: PublicRoomView) {
    }

    fn same_key_exec(&self, other: &Self) -> (r: bool) {
        self.room_id.0 == other.room_id.0
    }
}

impl RecordKey for IdentityId {
    open spec fn same_key(a: Seq<char>, b: Seq<char>) -> bool {
        a == b
    }

    proof fn lemma_same_key_refl(a: Seq<char>) {
    }

    proof fn lemma_same_key_sym(a: Seq<char>, b: Seq<char>) {
    }

    fn same_key_exec(&self, other: &Self) -> (r: bool) {
        self.0 == other.0
    }
}

impl RecordKey for CityTrustRecord {
    open spec fn same_key(a: CityTrustView, b: CityTrustView) -> bool {
        a.city_id == b.city_id
    }

    proof fn lemma_same_key_refl(a: CityTrustView) {
    }

    proof fn lemma_same_key_sym(a: CityTrustView, b: CityTrustView) {
    }

    fn same_key_exec(&self, other: &Self) -> (r: bool) {
        self.city_id.0 == other.city_id.0
    }
}

impl RecordKey for WorldSquareNotice {
    open spec fn same_key(a: NoticeView, b: NoticeView) -> bool {
        a.notice_id == b.notice_id
    }

    proof fn lemma_same_key_refl(a: NoticeView) {
    }

    proof fn lemma_same_key_sym(a: NoticeView, b: NoticeView) {
    }

    fn same_key_exec(&self, other: &Self) -> (r: bool) {
        self.notice_id == other.notice_id
    }
}

impl RecordKey for SafetyAdvisory {
    open spec fn same_key(a: (Seq<char>, u64, Seq<char>), b: (Seq<char>, u64, Seq<char>)) -> bool {
        a.0 == b.0
    }

    proof fn lemma_same_key_refl(a: (Seq<char>, u64, Seq<char>)) {
    }

    proof fn lemma_same_key_sym(a: (Seq<char>, u64, Seq<char>), b: (Seq<char>, u64, Seq<char>)) {
    }

    fn same_key_exec(&self, other: &Self) -> (r: bool) {
        self.advisory_id == other.advisory_id
    }
}

impl RecordKey for SafetyReport {
    open spec fn same_key(a: (Seq<char>, u64, Seq<char>), b: (Seq<char>, u64, Seq<char>)) -> bool {
        a.0 == b.0
    }

    proof fn lemma_same_key_refl(a: (Seq<char>, u64, Seq<char>)) {
    }

    proof fn lemma_same_key_sym(a: (Seq<char>, u64, Seq<char>), b: (Seq<char>, u64, Seq<char>)) {
    }

    fn same_key_exec(&self, other: &Self) -> (r: bool) {
        self.report_id == other.report_id
    }
}

impl RecordKey for ResidentSanction {
    open spec fn same_key(a: (Seq<char>, u64, Seq<char>), b: (Seq<char>, u64, Seq<char>)) -> bool {
        a.0 == b.0
    }

    proof fn lemma_same_key_refl(a: (Seq<char>, u64, Seq<char>)) {
    }

    proof fn lemma_same_key_sym(a: (Seq<char>, u64, Seq<char>), b: (Seq<char>, u64, Seq<char>)) {
    }

    fn same_key_exec(&self, other: &Self) -> (r: bool) {
        self.sanction_id == other.sanction_id
    }
}

impl RecordKey for RegistrationBlacklistEntry {
    open spec fn same_key(a: BlacklistView, b: BlacklistView) -> bool {
        a.hash_sha256 == b.hash_sha256
    }

    proof fn lemma_same_key_refl(a: BlacklistView) {
    }

    proof fn lemma_same_key_sym(a: BlacklistView, b: BlacklistView) {
    }

    fn same_key_exec(&self, other: &Self) -> (r: bool) {
        self.hash_sha256 == other.hash_sha256
    }
}

// Orders on compound keys.
/// `(a1, a2)` before or equal to `(b1, b2)`, both texts compared in turn.
pub open spec fn text_pair_le(a1: Seq<char>, a2: Seq<char>, b1: Seq<char>, b2: Seq<char>) -> bool {
    text_lt(a1, b1) || (a1 == b1 && text_le(a2, b2))
}

/// `(a1, a2, a3)` before or equal to `(b1, b2, b3)`: two texts, then a number.
pub open spec fn text_pair_num_le(
    a1: Seq<char>,
    a2: Seq<char>,
    a3: u64,
    b1: Seq<char>,
    b2: Seq<char>,
    b3: u64,
) -> bool {
    text_lt(a1, b1) || (a1 == b1 && (text_lt(a2, b2) || (a2 == b2 && a3 <= b3)))
}

proof fn lemma_text_lt_facts(a: Seq<char>, b: Seq<char>, c: Seq<char>)
    ensures
        text_lt(a, b) || a == b || text_lt(b, a),
        text_lt(a, b) && text_le(b, c) ==> text_lt(a, c),
        text_le(a, b) && text_lt(b, c) ==> text_lt(a, c),
{
    lemma_text_le_total(a, b);
    if text_lt(a, b) && text_le(b, c) {
        lemma_text_le_trans(a, b, c);
        if a == c {
            lemma_text_le_antisym(a, b);
        }
    }
    if text_le(a, b) && text_lt(b, c) {
        lemma_text_le_trans(a, b, c);
        if a == c {
            lemma_text_le_antisym(b, c);
        }
    }
}

proof fn lemma_text_pair_total(a1: Seq<char>, a2: Seq<char>, b1: Seq<char>, b2: Seq<char>)
    ensures
        text_pair_le(a1, a2, b1, b2) || text_pair_le(b1, b2, a1, a2),
{
    lemma_text_lt_facts(a1, b1, b1);
    lemma_text_le_total(a2, b2);
}

proof fn lemma_text_pair_trans(
    a1: Seq<char>,
    a2: Seq<char>,
    b1: Seq<char>,
    b2: Seq<char>,
    c1: Seq<char>,
    c2: Seq<char>,
)
    requires
        text_pair_le(a1, a2, b1, b2),
        text_pair_le(b1, b2, c1, c2),
    ensures
        text_pair_le(a1, a2, c1, c2),
{
    lemma_text_lt_facts(a1, b1, c1);
    if a1 == b1 && b1 == c1 {
        lemma_text_le_trans(a2, b2, c2);
    }
}

proof fn lemma_text_pair_num_total(
    a1: Seq<char>,
    a2: Seq<char>,
    a3: u64,
    b1: Seq<char>,
    b2: Seq<char>,
    b3: u64,
)
    ensures
        text_pair_num_le(a1, a2, a3, b1, b2, b3) || text_pair_num_le(b1, b2, b3, a1, a2, a3),
{
    lemma_text_lt_facts(a1, b1, b1);
    lemma_text_lt_facts(a2, b2, b2);
}

proof fn lemma_text_pair_num_trans(
    a1: Seq<char>,
    a2: Seq<char>,
    a3: u64,
    b1: Seq<char>,
    b2: Seq<char>,
    b3: u64,
    c1: Seq<char>,
    c2: Seq<char>,
    c3: u64,
)
    requires
        text_pair_num_le(a1, a2, a3, b1, b2, b3),
        text_pair_num_le(b1, b2, b3, c1, c2, c3),
    ensures
        text_pair_num_le(a1, a2, a3, c1, c2, c3),
{
    lemma_text_lt_facts(a1, b1, c1);
    lemma_text_lt_facts(a2, b2, c2);
    lemma_text_le_refl(a1);
}

/// Cities by slug, then by city id (how snapshots and merged catalogues list
/// them).
pub struct CitiesBySlugAndId;

/// Memberships by city id, resident id, then joining time.
pub struct MembershipsByCityResidentTime;

/// Public rooms by creation time.
pub struct RoomsByCreation;

/// Identities by their text.
pub struct IdentitiesByText;

/// Trust records by city id.
pub struct TrustByCity;

/// Notices by posting time.
pub struct NoticesByPosting;

/// Advisories by issuing time.
pub struct AdvisoriesByIssue;

/// Reports by submission time.
pub struct ReportsBySubmission;

/// Sanctions by issuing time.
pub struct SanctionsByIssue;

/// Blacklist entries by handle kind, hash, then time added.
pub struct BlacklistByKindHashTime;

impl RecordOrder<CityState> for CitiesBySlugAndId {
    open spec fn le(a: CityView, b: CityView) -> bool {
        text_pair_le(a.slug, a.city_id, b.slug, b.city_id)
    }

    proof fn lemma_total(a: CityView, b: CityView) {
        lemma_text_pair_total(a.slug, a.city_id, b.slug, b.city_id);
    }

    proof fn lemma_trans(a: CityView, b: CityView, c: CityView) {
        lemma_text_pair_trans(a.slug, a.city_id, b.slug, b.city_id, c.slug, c.city_id);
    }

    fn le_exec(a: &CityState, b: &CityState) -> (r: bool) {
        let first = compare_text(&a.profile.slug, &b.profile.slug);
        if first != 0 {
            first < 0
        } else {
            compare_text(&a.profile.city_id.0, &b.profile.city_id.0) <= 0
        }
    }
}

impl RecordOrder<CityMembership> for MembershipsByCityResidentTime {
    open spec fn le(a: MembershipView, b: MembershipView) -> bool {
        text_pair_num_le(
            a.city_id,
            a.resident_id,
            a.joined_at_ms,
            b.city_id,
            b.resident_id,
            b.joined_at_ms,
        )
    }

    proof fn lemma_total(a: MembershipView, b: MembershipView) {
        lemma_text_pair_num_total(
            a.city_id,
            a.resident_id,
            a.joined_at_ms,
            b.city_id,
            b.resident_id,
            b.joined_at_ms,
        );
    }

    proof fn lemma_trans(a: MembershipView, b: MembershipView, c: MembershipView) {
        lemma_text_pair_num_trans(
            a.city_id,
            a.resident_id,
            a.joined_at_ms,
            b.city_id,
            b.resident_id,
            b.joined_at_ms,
            c.city_id,
            c.resident_id,
            c.joined_at_ms,
        );
    }

    fn le_exec(a: &CityMembership, b: &CityMembership) -> (r: bool) {
        let first = compare_text(&a.city_id.0, &b.city_id.0);
        if first != 0 {
            return first < 0;
        }
        let second = compare_text(&a.resident_id.0, &b.resident_id.0);
        if second != 0 {
            return second < 0;
        }
        a.joined_at_ms <= b.joined_at_ms
    }
}

impl RecordOrder<PublicRoomRecord> for RoomsByCreation {
    open spec fn le(a: PublicRoomView, b: PublicRoomView) -> bool {
        a.created_at_ms <= b.created_at_ms
    }

    proof fn lemma_total(a: PublicRoomView, b: PublicRoomView) {
    }

    proof fn lemma_trans(a: PublicRoomView, b: PublicRoomView, c: PublicRoomView) {
    }

    fn le_exec(a: &PublicRoomRecord, b: &PublicRoomRecord) -> (r: bool) {
        a.created_at_ms <= b.created_at_ms
    }
}

impl RecordOrder<IdentityId> for IdentitiesByText {
    open spec fn le(a: Seq<char>, b: Seq<char>) -> bool {
        text_le(a, b)
    }

    proof fn lemma_total(a: Seq<char>, b: Seq<char>) {
        lemma_text_le_total(a, b);
    }

    proof fn lemma_trans(a: Seq<char>, b: Seq<char>, c: Seq<char>) {
        lemma_text_le_trans(a, b, c);
    }

    fn le_exec(a: &IdentityId, b: &IdentityId) -> (r: bool) {
        compare_text(&a.0, &b.0) <= 0
    }
}

impl RecordOrder<CityTrustRecord> for TrustByCity {
    open spec fn le(a: CityTrustView, b: CityTrustView) -> bool {
        text_le(a.city_id, b.city_id)
    }

    proof fn lemma_total(a: CityTrustView, b: CityTrustView) {
        lemma_text_le_total(a.city_id, b.city_id);
    }

    proof fn lemma_trans(a: CityTrustView, b: CityTrustView, c: CityTrustView) {
        lemma_text_le_trans(a.city_id, b.city_id, c.city_id);
    }

    fn le_exec(a: &CityTrustRecord, b: &CityTrustRecord) -> (r: bool) {
        compare_text(&a.city_id.0, &b.city_id.0) <= 0
    }
}

impl RecordOrder<WorldSquareNotice> for NoticesByPosting {
    open spec fn le(a: NoticeView, b: NoticeView) -> bool {
        a.posted_at_ms <= b.posted_at_ms
    }

    proof fn lemma_total(a: NoticeView, b: NoticeView) {
    }

    proof fn lemma_trans(a: NoticeView, b: NoticeView, c: NoticeView) {
    }

    fn le_exec(a: &WorldSquareNotice, b: &WorldSquareNotice) -> (r: bool) {
        a.posted_at_ms <= b.posted_at_ms
    }
}

impl RecordOrder<SafetyAdvisory> for AdvisoriesByIssue {
    open spec fn le(a: (Seq<char>, u64, Seq<char>), b: (Seq<char>, u64, Seq<char>)) -> bool {
        a.1 <= b.1
    }

    proof fn lemma_total(a: (Seq<char>, u64, Seq<char>), b: (Seq<char>, u64, Seq<char>)) {
    }

    proof fn lemma_trans(a: (Seq<char>, u64, Seq<char>), b: (Seq<char>, u64, Seq<char>), c: (Seq<char>, u64, Seq<char>)) {
    }

    fn le_exec(a: &SafetyAdvisory, b: &SafetyAdvisory) -> (r: bool) {
        a.issued_at_ms <= b.issued_at_ms
    }
}

impl RecordOrder<SafetyReport> for ReportsBySubmission {
    open spec fn le(a: (Seq<char>, u64, Seq<char>), b: (Seq<char>, u64, Seq<char>)) -> bool {
        a.1 <= b.1
    }

    proof fn lemma_total(a: (Seq<char>, u64, Seq<char>), b: (Seq<char>, u64, Seq<char>)) {
    }

    proof fn lemma_trans(a: (Seq<char>, u64, Seq<char>), b: (Seq<char>, u64, Seq<char>), c: (Seq<char>, u64, Seq<char>)) {
    }

    fn le_exec(a: &SafetyReport, b: &SafetyReport) -> (r: bool) {
        a.submitted_at_ms <= b.submitted_at_ms
    }
}

impl RecordOrder<ResidentSanction> for SanctionsByIssue {
    open spec fn le(a: (Seq<char>, u64, Seq<char>), b: (Seq<char>, u64, Seq<char>)) -> bool {
        a.1 <= b.1
    }

    proof fn lemma_total(a: (Seq<char>, u64, Seq<char>), b: (Seq<char>, u64, Seq<char>)) {
    }

    proof fn lemma_trans(a: (Seq<char>, u64, Seq<char>), b: (Seq<char>, u64, Seq<char>), c: (Seq<char>, u64, Seq<char>)) {
    }

    fn le_exec(a: &ResidentSanction, b: &ResidentSanction) -> (r: bool) {
        a.issued_at_ms <= b.issued_at_ms
    }
}

impl RecordOrder<RegistrationBlacklistEntry> for BlacklistByKindHashTime {
    open spec fn le(a: BlacklistView, b: BlacklistView) -> bool {
        text_pair_num_le(
            a.handle_kind,
            a.hash_sha256,
            a.added_at_ms,
            b.handle_kind,
            b.hash_sha256,
            b.added_at_ms,
        )
    }

    proof fn lemma_total(a: BlacklistView, b: BlacklistView) {
        lemma_text_pair_num_total(
            a.handle_kind,
            a.hash_sha256,
            a.added_at_ms,
            b.handle_kind,
            b.hash_sha256,
            b.added_at_ms,
        );
    }

    proof fn lemma_trans(a: BlacklistView, b: BlacklistView, c: BlacklistView) {
        lemma_text_pair_num_trans(
            a.handle_kind,
            a.hash_sha256,
            a.added_at_ms,
            b.handle_kind,
            b.hash_sha256,
            b.added_at_ms,
            c.handle_kind,
            c.hash_sha256,
            c.added_at_ms,
        );
    }

    fn le_exec(a: &RegistrationBlacklistEntry, b: &RegistrationBlacklistEntry) -> (r: bool) {
        let first = compare_text(&a.handle_kind, &b.handle_kind);
        if first != 0 {
            return first < 0;
        }
        let second = compare_text(&a.hash_sha256, &b.hash_sha256);
        if second != 0 {
            return second < 0;
        }
        a.added_at_ms <= b.added_at_ms
    }
}

} // verus!
