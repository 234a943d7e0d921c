use vstd::prelude::*;

verus! {

/// The protocol events a contract deployment emits.
#[derive(Debug, Clone, Copy, PartialEq, Eq, Structural)]
pub enum EventName {
    Initialize,
    SetAuthority,
    UpdateStakeConfiguration,
    UpdateRewardConfiguration,
    CreateReporter,
    UpdateReporter,
    ActivateReporter,
    DeactivateReporter,
    Unstake,
    CreateCase,
    UpdateCase,
    CreateAddress,
    UpdateAddress,
    ConfirmAddress,
    CreateAsset,
    UpdateAsset,
    ConfirmAsset,
}

/// The kind of record an event carries, or `None` for kinds that are
/// recognised but not mapped to a record.
#[derive(Debug, Clone, Copy, PartialEq, Eq, Structural)]
pub enum RecordKind {
    Reporter,
    Case,
    Address,
    Asset,
    Unmapped,
}

pub open spec fn record_kind_of(e: EventName) -> RecordKind {
    match e {
        EventName::CreateReporter | EventName::UpdateReporter | EventName::ActivateReporter
        | EventName::DeactivateReporter | EventName::Unstake => RecordKind::Reporter,
        EventName::CreateCase => RecordKind::Case,
        EventName::CreateAddress | EventName::UpdateAddress
        | EventName::ConfirmAddress => RecordKind::Address,
        EventName::CreateAsset | EventName::UpdateAsset
        | EventName::ConfirmAsset => RecordKind::Asset,
        _ => RecordKind::Unmapped,
    }
}

impl EventName {
    /// Which record this event kind decodes to.
    pub fn record_kind(&self) -> (r: RecordKind)
        ensures
            r == record_kind_of(*self),
    {
        match self {
            EventName::CreateReporter | EventName::UpdateReporter | EventName::ActivateReporter
            | EventName::DeactivateReporter | EventName::Unstake => RecordKind::Reporter,
            EventName::CreateCase => RecordKind::Case,
            EventName::CreateAddress | EventName::UpdateAddress
            | EventName::ConfirmAddress => RecordKind::Address,
            EventName::CreateAsset | EventName::UpdateAsset
            | EventName::ConfirmAsset => RecordKind::Asset,
            _ => RecordKind::Unmapped,
        }
    }
}

/// What a reporter may do.
#[derive(Debug, Clone, Copy, PartialEq, Eq, Structural)]
pub enum ReporterRole {
    /// Can validate addresses.
    Validator,
    /// Can report and validate addresses.
    Tracer,
    /// Can report cases and addresses.
    Full,
    /// Can report and modify cases and addresses.
    Authority,
}

/// Where a reporter stands with its stake.
#[derive(Debug, Clone, Copy, PartialEq, Eq, Structural)]
pub enum ReporterStatus {
    /// Not active, but can activate after staking.
    Inactive,
    /// Active and can report.
    Active,
    /// Has requested unstaking and can't report.
    Unstaking,
}

/// Whether a case is still open.
#[derive(Debug, Clone, Copy, PartialEq, Eq, Structural)]
pub enum CaseStatus {
    Closed,
    Open,
}

impl Default for ReporterStatus {
    fn default() -> (r: Self)
        ensures
            r == ReporterStatus::Inactive,
    {
        ReporterStatus::Inactive
    }
}

impl Default for ReporterRole {
    fn default() -> (r: Self)
        ensures
            r == ReporterRole::Validator,
    {
        ReporterRole::Validator
    }
}

/// The role with code `c`: codes run 0 to 3 in declaration order.
pub open spec fn role_of(c: nat) -> Option<ReporterRole> {
    if c == 0 {
        Some(ReporterRole::Validator)
    } else if c == 1 {
        Some(ReporterRole::Tracer)
    } else if c == 2 {
        Some(ReporterRole::Full)
    } else if c == 3 {
        Some(ReporterRole::Authority)
    } else {
        None
    }
}

/// The code of a role, inverse of `role_of`.
pub open spec fn role_code(r: ReporterRole) -> nat {
    match r {
        ReporterRole::Validator => 0,
        ReporterRole::Tracer => 1,
        ReporterRole::Full => 2,
        ReporterRole::Authority => 3,
    }
}

/// The status with code `c`: codes run 0 to 2 in declaration order.
pub open spec fn status_of(c: nat) -> Option<ReporterStatus> {
    if c == 0 {
        Some(ReporterStatus::Inactive)
    } else if c == 1 {
        Some(ReporterStatus::Active)
    } else if c == 2 {
        Some(ReporterStatus::Unstaking)
    } else {
        None
    }
}

pub open spec fn status_code(s: ReporterStatus) -> nat {
    match s {
        ReporterStatus::Inactive => 0,
        ReporterStatus::Active => 1,
        ReporterStatus::Unstaking => 2,
    }
}

/// The status a reporter event puts the reporter in: creation leaves it
/// inactive until it stakes, activation makes it active, deactivation starts
/// unstaking, and withdrawing the stake makes it inactive again. An update
/// leaves the status as it was.
pub open spec fn status_after(e: EventName) -> Option<ReporterStatus> {
    match e {
        EventName::CreateReporter => Some(ReporterStatus::Inactive),
        EventName::ActivateReporter => Some(ReporterStatus::Active),
        EventName::DeactivateReporter => Some(ReporterStatus::Unstaking),
        EventName::Unstake => Some(ReporterStatus::Inactive),
        _ => None,
    }
}

pub fn status_after_event(e: EventName) -> (r: Option<ReporterStatus>)
    ensures
        r == status_after(e),
{
    match e {
        EventName::CreateReporter => Some(ReporterStatus::Inactive),
        EventName::ActivateReporter => Some(ReporterStatus::Active),
        EventName::DeactivateReporter => Some(ReporterStatus::Unstaking),
        EventName::Unstake => Some(ReporterStatus::Inactive),
        _ => None,
    }
}

/// The case status with code `c`: 0 closed, 1 open.
pub open spec fn case_status_of(c: nat) -> Option<CaseStatus> {
    if c == 0 {
        Some(CaseStatus::Closed)
    } else if c == 1 {
        Some(CaseStatus::Open)
    } else {
        None
    }
}

pub open spec fn case_status_code(s: CaseStatus) -> nat {
    match s {
        CaseStatus::Closed => 0,
        CaseStatus::Open => 1,
    }
}

pub fn role_from_code(c: u128) -> (r: Option<ReporterRole>)
    ensures
        r == role_of(c as nat),
{
    if c == 0 {
        Some(ReporterRole::Validator)
    } else if c == 1 {
        Some(ReporterRole::Tracer)
    } else if c == 2 {
        Some(ReporterRole::Full)
    } else if c == 3 {
        Some(ReporterRole::Authority)
    } else {
        None
    }
}

pub fn status_from_code(c: u128) -> (r: Option<ReporterStatus>)
    ensures
        r == status_of(c as nat),
{
    if c == 0 {
        Some(ReporterStatus::Inactive)
    } else if c == 1 {
        Some(ReporterStatus::Active)
    } else if c == 2 {
        Some(ReporterStatus::Unstaking)
    } else {
        None
    }
}

pub fn case_status_from_code(c: u128) -> (r: Option<CaseStatus>)
    ensures
        r == case_status_of(c as nat),
{
    if c == 0 {
        Some(CaseStatus::Closed)
    } else if c == 1 {
        Some(CaseStatus::Open)
    } else {
        None
    }
}

/// Largest risk score a record may carry.
pub const MAX_RISK: u8 = 10;

/// A reporter record.
#[derive(Debug, Clone, PartialEq, Eq)]
pub struct ReporterData {
    pub id: u128,
    /// 20 bytes on account-style networks, 32 on transaction-stream ones.
    pub account: Vec<u8>,
    pub role: ReporterRole,
    /// The status the event puts the reporter in; `None` where the event
    /// leaves it as it was.
    pub status: Option<ReporterStatus>,
}

/// A case record.
#[derive(Debug, Clone, PartialEq, Eq)]
pub struct CaseData {
    pub id: u128,
    pub status: CaseStatus,
}

/// An address record.
#[derive(Debug, Clone, PartialEq, Eq)]
pub struct AddressData {
    /// 20 bytes on account-style networks, 32 on transaction-stream ones.
    pub address: Vec<u8>,
    pub case_id: u128,
    pub reporter_id: u128,
    pub confirmations: u64,
    pub risk: u8,
    pub category: u8,
}

/// An asset record.
#[derive(Debug, Clone, PartialEq, Eq)]
pub struct AssetData {
    /// Token contract: 20 bytes on account-style networks, 32 on transaction-stream ones.
    pub address: Vec<u8>,
    /// 32-byte big-endian asset id.
    pub asset_id: Vec<u8>,
    pub risk: u8,
    pub category: u8,
}

/// A normalised protocol record, independent of the network it came from.
#[derive(Debug, Clone, PartialEq, Eq)]
pub enum PushData {
    Reporter(ReporterData),
    Case(CaseData),
    Address(AddressData),
    Asset(AssetData),
}

/// The mathematical value of a `PushData`.
pub enum PushDataModel {
    Reporter { id: nat, account: Seq<u8>, role: ReporterRole, status: Option<ReporterStatus> },
    Case { id: nat, status: CaseStatus },
    Address {
        address: Seq<u8>,
        case_id: nat,
        reporter_id: nat,
        confirmations: nat,
        risk: nat,
        category: nat,
    },
    Asset { address: Seq<u8>, asset_id: Seq<u8>, risk: nat, category: nat },
}

impl View for PushData {
    type V = PushDataModel;

    open spec fn view(&self) -> PushDataModel {
        match self {
            PushData::Reporter(d) => PushDataModel::Reporter {
                id: d.id as nat,
                account: d.account@,
                role: d.role,
                status: d.status,
            },
            PushData::Case(d) => PushDataModel::Case { id: d.id as nat, status: d.status },
            PushData::Address(d) => PushDataModel::Address {
                address: d.address@,
                case_id: d.case_id as nat,
                reporter_id: d.reporter_id as nat,
                confirmations: d.confirmations as nat,
                risk: d.risk as nat,
                category: d.category as nat,
            },
            PushData::Asset(d) => PushDataModel::Asset {
                address: d.address@,
                asset_id: d.asset_id@,
                risk: d.risk as nat,
                category: d.category as nat,
            },
        }
    }
}

/// The networks a client can be configured for.
#[derive(Debug, Clone, Copy, PartialEq, Eq, Structural)]
pub enum NetworkKind {
    Ethereum,
    Bsc,
    Sepolia,
    Near,
    Solana,
    Bitcoin,
}

/// The transaction an event came from.
#[derive(Debug, Clone, PartialEq, Eq)]
pub enum TxReference {
    /// Transaction hash of an account-style network.
    Hash(Vec<u8>),
    /// Transaction signature of a transaction-stream network.
    Signature(String),
}

pub enum TxReferenceView {
    Hash(Seq<u8>),
    Signature(Seq<char>),
}

impl View for TxReference {
    type V = TxReferenceView;

    open spec fn view(&self) -> TxReferenceView {
        match self {
            TxReference::Hash(h) => TxReferenceView::Hash(h@),
            TxReference::Signature(s) => TxReferenceView::Signature(s@),
        }
    }
}

/// One normalised event with its provenance; built once, never changed.
#[derive(Debug, Clone, PartialEq, Eq)]
pub struct PushPayload {
    pub network: NetworkKind,
    pub event: EventName,
    pub tx: TxReference,
    /// Block height or slot.
    pub block: u64,
    pub timestamp: u64,
    pub data: PushData,
}

/// The mathematical value of a `PushPayload`.
pub struct PushPayloadModel {
    pub network: NetworkKind,
    pub event: EventName,
    pub tx: TxReferenceView,
    pub block: nat,
    pub timestamp: nat,
    pub data: PushDataModel,
}

impl View for PushPayload {
    type V = PushPayloadModel;

    open spec fn view(&self) -> PushPayloadModel {
        PushPayloadModel {
            network: self.network,
            event: self.event,
            tx: self.tx@,
            block: self.block as nat,
            timestamp: self.timestamp as nat,
            data: self.data@,
        }
    }
}

} // verus!
