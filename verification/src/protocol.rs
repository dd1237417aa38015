//! Packet types of the game protocol.
//!
//! A packet is a u16 total size (including the size field), a u16 type, and
//! a body of tagged elements. Type codes may differ between game versions,
//! but they do not seem to be reused.
use vstd::prelude::*;
use crate::rqode_binrw::{
    Wire, SpecRead, BinError, U8, U16, RBool, U32, F32, U64, Op13, BodyParam, Op21, InvSlot, Op36,
    Op3B, CurrencyData, RBytes, RZlib, RString, RVec, spec_items, ser_items, parse_items,
    write_items, lemma_items_roundtrip, lemma_subrange_prefix, opt_view, zlib_inflate,
    zlib_decompress, ZLIB_CAPACITY,
};
use crate::le::{le16, ser16, read_le16, write_le16, lemma_le16_roundtrip};
use vstd::slice::slice_subrange;

verus! {

/// The known packet types.
#[derive(Clone, Copy, Debug, PartialEq, Eq, Structural)]
pub enum PacketType {
    /// Client -> Server
    /// auth data
    AuthRequest,
    /// Server -> Client
    /// Contains list of servers
    ServerList,
    /// Client -> Server
    /// pincode hash and smth
    PinResult,
    /// Client -> Server
    /// close connection, no data
    ConnectionClose,
    /// Client -> Server
    /// Sent when player presses server select button
    /// Empty
    FetchServerList,
    /// Server -> Client
    /// Contains list of servers
    /// Resposnse to 0x09
    /// Similar to 0x02, but somewhat truncated
    ServerListResponse,
    /// Client -> Server
    /// Sent on connection start
    /// Contains millis from PC start, and millis + 354
    Connect,
    /// Server -> Client
    /// Server sends its time
    /// Client must respond with packet 0xF (TimeSyncResponse)
    /// Causes time diff calculation on client
    TimeSync,
    /// Client -> Server
    /// Contains some unknown fields derived from global vars
    TimeSyncResponse,
    /// Server -> Client
    ConnectionError,
    /// Server -> Client
    /// Contains characters and their equipment
    AccountInfo,
    /// Client -> Server
    /// Sent when player enters premium ccode
    PremiumCode,
    /// Server -> Client
    /// Premium code validtion result
    PremiumCodeResponse,
    /// Server -> Client
    /// Sent on startup
    ServerVars,
    /// Server -> Client
    Packet13,
    /// Client -> Server
    /// Seems to be related to obfuscated? error reporting
    Packet16,
    /// Client -> Server
    /// DLC id
    SteamDlcInstalled,
    /// Server -> Client
    /// Daily reward status
    DailyReward,
    /// Client -> Server
    /// Issued when user presses "take reward" on char select screen
    TakeReward,
    /// Client -> Server
    /// Steam microtransaction
    /// order id, authorized,
    SteamMicroTxn,
    /// Server -> Client
    /// Initializes player in world
    PlayerData,
    /// Client -> Server
    EnterWorldRequest,
    /// Server -> Client
    /// Inventory state
    Inventory,
    /// Server -> Client
    EnterWorldResponse,
    /// Client -> Server
    /// Name availability testing, single string
    TestCharNameReq,
    /// Server -> Client
    /// Name avail response, single u32
    TestCharNameResp,
    /// Client -> Server
    /// Sent on character creation
    CreateCharacterReq,
    /// Server -> Client
    /// Sent on successful character creation
    CreateCharacterRes,
    /// Client -> Server
    HeartbeatClient,
    /// Server -> Client
    HeartbeatServer,
    /// Client -> Server
    SendChatMessage,
    /// Server -> Client
    ChatMessage,
    /// Server -> Client
    /// Sent when player balance (at least gold) updated
    UpdateBalance,
    /// Server -> Client
    /// Sent when player enter game world
    SwitchLocation,
    /// Cleint -> Server
    /// another connection close, no data
    ConnectionClose2,
    /// Server -> Client
    /// Sent when new entity detected nearby
    EntityAdd,
    /// Server -> Client
    /// Sent when new entity moves
    EntityMove,
    /// Server -> Client
    /// Sent when entity drops item
    EntityDrop,
    /// Server -> Client
    /// Sent when entity was removed (or disappear?)
    EntityRemove,
    /// Server -> Client
    /// Sent when entity was removed (or disappear?)
    EntityRemove2,
    /// Client -> Server
    /// Move player character
    CharacterMove,
    /// Server -> Client
    /// Contains character location and camera parameters
    PosCamera,
    /// Client -> Server
    /// Sent when player attacks entity, heals, takes food, etc
    UseAbility,
    /// Client -> Server
    /// Sent when player wants to pickup dropped item
    /// Also used to activate various things, like chests
    PickupRequest,
    /// Server -> Client
    /// Sent when entity attacks other entity or uses ability
    EntityAction,
    /// Server -> Client
    /// Sent when any player deals damage to entity
    DealtDamage,
    /// Server -> Client
    /// Not sure about it, but probably sent on some enity action like regen/hp update
    /// Probably has other ID on older version
    EntityActionPassive,
    /// Server -> Client
    EntityDeath,
    /// Server -> Client
    /// Sent when entity dies and player receives/gives currency, etc
    /// Seems to only be used to display lines in battle log
    BattleLog,
    /// Server -> Client
    /// Current level experience amount
    ExperienceAmount,
    /// Server -> Client
    /// Sent when character stat gets updated
    StatUpdate,
    /// Server -> Client
    /// Sent to notify client about skill cooldown
    SkillCooldown,
    /// Client -> Server
    /// Sent when player moves item in inventory
    MoveItemRequst,
    /// Server -> Client
    /// Move item confirmation
    MoveItem,
    /// Server -> Client
    /// Sent when entity sets agro target (?)
    SetAgroTarget,
    /// Server -> Client
    /// Sent when player receives item
    ReceiveItem,
    /// Server -> Client
    /// May containt other player data
    PacketC5,
    /// Client -> Server
    /// Sent when player increases character stat
    StatUpdateRequest,
    /// Client -> Server
    /// Sent when player clicks on dialog entry
    DialogEntryReq,
    /// Client -> Server
    /// Sent when player clicks on quest dialog entry
    DialogEntryCheckQuest,
    /// Server -> Client
    /// Response to DialogEntryReq
    /// Closes dialog window
    DialogClose,
    /// Server -> Client
    /// Response to DialogEntryReq
    DialogEntryRes,
    /// Client -> Server
    /// Sent when player buys item from NPC
    BuyItemRequest,
    /// Client -> Server
    /// Sent when player sells items to NPC
    SellItemRequest,
    /// Client -> Server
    /// Sent when player buys back their items
    BuyBackRequest,
    /// Client -> Server
    /// BuyBack confirmation
    BuyBack,
    /// Both directions
    /// zlib+deflate compressed blob
    /// Might optionally be encoded using `yasli` lib
    /// Usually contains regular packet with size over some threshold
    CompressedData,
    /// Seems to be same as CompressedData?
    /// Changed in newer game version?
    CompressedData2,
    /// Server -> Client
    /// Sent when player starts action on some entity, like collecting resource
    StartEntityAction,
    /// Server -> Client
    /// Sent when player normally stops action on some entity, like collecting resource
    StopEntityAction,
    /// Client -> Server
    /// Sent when player aborts current processing action
    AbortCurrentAction,
    /// Server -> Client
    /// Sent when player aborts current processing action
    AbortEntityAction,
    /// Server -> Client
    /// Contains PNG avatar of guild?
    GuildAvatar,
    /// Client -> Server
    /// Sent when client wants to get friends online status
    CheckFriendsStatus,
    /// Server -> Client
    /// Response to CheckFriendStatus, one per friend
    /// May be short or extended
    FriendStatus,
    /// Server -> Client
    ShowEmotion,
    /// Client -> Server
    ShowEmotionRequest,
    /// Both directions
    /// Client initiates and server echoes some timestamp
    Heartbeat2,
    /// Both directions
    /// Client initiates and server echoes
    /// Contains milliseconds from client start
    Heartbeat3,
    /// Client -> Server
    ExitRequest,
    /// Server -> Client
    ExitResponse,
    /// Client -> Server
    /// Only sent from game world
    ExitRequestIngame,
    /// Server -> Client
    /// Response to ExitRequestIngame
    /// Contains delay seconds
    ExitResponseIngame,
}

impl PacketType {
    /// The packet type with the given code, if one is known.
    pub open spec fn spec_from_u16(code: u16) -> Option<PacketType> {
        match code {
            0x1 => Some(PacketType::AuthRequest),
            0x2 => Some(PacketType::ServerList),
            0x6 => Some(PacketType::PinResult),
            0x8 => Some(PacketType::ConnectionClose),
            0x9 => Some(PacketType::FetchServerList),
            0xa => Some(PacketType::ServerListResponse),
            0xc => Some(PacketType::Connect),
            0xd => Some(PacketType::TimeSync),
            0xf => Some(PacketType::TimeSyncResponse),
            0xe => Some(PacketType::ConnectionError),
            0x11 => Some(PacketType::AccountInfo),
            0x1c => Some(PacketType::PremiumCode),
            0x1d => Some(PacketType::PremiumCodeResponse),
            0x12 => Some(PacketType::ServerVars),
            0x13 => Some(PacketType::Packet13),
            0x16 => Some(PacketType::Packet16),
            0x25 => Some(PacketType::SteamDlcInstalled),
            0x23 => Some(PacketType::DailyReward),
            0x24 => Some(PacketType::TakeReward),
            0x28 => Some(PacketType::SteamMicroTxn),
            0x33 => Some(PacketType::PlayerData),
            0x34 => Some(PacketType::EnterWorldRequest),
            0x38 => Some(PacketType::Inventory),
            0x39 => Some(PacketType::EnterWorldResponse),
            0x3f => Some(PacketType::TestCharNameReq),
            0x40 => Some(PacketType::TestCharNameResp),
            0x41 => Some(PacketType::CreateCharacterReq),
            0x43 => Some(PacketType::CreateCharacterRes),
            0x46 => Some(PacketType::HeartbeatClient),
            0x47 => Some(PacketType::HeartbeatServer),
            0x4d => Some(PacketType::SendChatMessage),
            0x4e => Some(PacketType::ChatMessage),
            0x52 => Some(PacketType::UpdateBalance),
            0x53 => Some(PacketType::SwitchLocation),
            0x56 => Some(PacketType::ConnectionClose2),
            0x5a => Some(PacketType::EntityAdd),
            0x5c => Some(PacketType::EntityMove),
            0x5d => Some(PacketType::EntityDrop),
            0x5e => Some(PacketType::EntityRemove),
            0x5b => Some(PacketType::EntityRemove2),
            0x5f => Some(PacketType::CharacterMove),
            0x64 => Some(PacketType::PosCamera),
            0x92 => Some(PacketType::UseAbility),
            0x95 => Some(PacketType::PickupRequest),
            0x9a => Some(PacketType::EntityAction),
            0x9c => Some(PacketType::DealtDamage),
            0xa0 => Some(PacketType::EntityActionPassive),
            0xa4 => Some(PacketType::EntityDeath),
            0xae => Some(PacketType::BattleLog),
            0xaf => Some(PacketType::ExperienceAmount),
            0xa7 => Some(PacketType::StatUpdate),
            0xb4 => Some(PacketType::SkillCooldown),
            0xbb => Some(PacketType::MoveItemRequst),
            0xbe => Some(PacketType::MoveItem),
            0xc0 => Some(PacketType::SetAgroTarget),
            0xc1 => Some(PacketType::ReceiveItem),
            0xc5 => Some(PacketType::PacketC5),
            0xcd => Some(PacketType::StatUpdateRequest),
            0xd4 => Some(PacketType::DialogEntryReq),
            0xd5 => Some(PacketType::DialogEntryCheckQuest),
            0xd7 => Some(PacketType::DialogClose),
            0xd8 => Some(PacketType::DialogEntryRes),
            0x103 => Some(PacketType::BuyItemRequest),
            0x105 => Some(PacketType::SellItemRequest),
            0x106 => Some(PacketType::BuyBackRequest),
            0x107 => Some(PacketType::BuyBack),
            0x129 => Some(PacketType::CompressedData),
            0x12a => Some(PacketType::CompressedData2),
            0x12f => Some(PacketType::StartEntityAction),
            0x130 => Some(PacketType::StopEntityAction),
            0x131 => Some(PacketType::AbortCurrentAction),
            0x132 => Some(PacketType::AbortEntityAction),
            0x148 => Some(PacketType::GuildAvatar),
            0x162 => Some(PacketType::CheckFriendsStatus),
            0x163 => Some(PacketType::FriendStatus),
            0x194 => Some(PacketType::ShowEmotion),
            0x196 => Some(PacketType::ShowEmotionRequest),
            0x199 => Some(PacketType::Heartbeat2),
            0x19c => Some(PacketType::Heartbeat3),
            0x1d4 => Some(PacketType::ExitRequest),
            0x1d5 => Some(PacketType::ExitResponse),
            0x1d7 => Some(PacketType::ExitRequestIngame),
            0x1d8 => Some(PacketType::ExitResponseIngame),
            _ => None,
        }
    }

    /// The code of a packet type.
    pub open spec fn spec_code(self) -> u16 {
        match self {
            PacketType::AuthRequest => 0x1,
            PacketType::ServerList => 0x2,
            PacketType::PinResult => 0x6,
            PacketType::ConnectionClose => 0x8,
            PacketType::FetchServerList => 0x9,
            PacketType::ServerListResponse => 0xa,
            PacketType::Connect => 0xc,
            PacketType::TimeSync => 0xd,
            PacketType::TimeSyncResponse => 0xf,
            PacketType::ConnectionError => 0xe,
            PacketType::AccountInfo => 0x11,
            PacketType::PremiumCode => 0x1c,
            PacketType::PremiumCodeResponse => 0x1d,
            PacketType::ServerVars => 0x12,
            PacketType::Packet13 => 0x13,
            PacketType::Packet16 => 0x16,
            PacketType::SteamDlcInstalled => 0x25,
            PacketType::DailyReward => 0x23,
            PacketType::TakeReward => 0x24,
            PacketType::SteamMicroTxn => 0x28,
            PacketType::PlayerData => 0x33,
            PacketType::EnterWorldRequest => 0x34,
            PacketType::Inventory => 0x38,
            PacketType::EnterWorldResponse => 0x39,
            PacketType::TestCharNameReq => 0x3f,
            PacketType::TestCharNameResp => 0x40,
            PacketType::CreateCharacterReq => 0x41,
            PacketType::CreateCharacterRes => 0x43,
            PacketType::HeartbeatClient => 0x46,
            PacketType::HeartbeatServer => 0x47,
            PacketType::SendChatMessage => 0x4d,
            PacketType::ChatMessage => 0x4e,
            PacketType::UpdateBalance => 0x52,
            PacketType::SwitchLocation => 0x53,
            PacketType::ConnectionClose2 => 0x56,
            PacketType::EntityAdd => 0x5a,
            PacketType::EntityMove => 0x5c,
            PacketType::EntityDrop => 0x5d,
            PacketType::EntityRemove => 0x5e,
            PacketType::EntityRemove2 => 0x5b,
            PacketType::CharacterMove => 0x5f,
            PacketType::PosCamera => 0x64,
            PacketType::UseAbility => 0x92,
            PacketType::PickupRequest => 0x95,
            PacketType::EntityAction => 0x9a,
            PacketType::DealtDamage => 0x9c,
            PacketType::EntityActionPassive => 0xa0,
            PacketType::EntityDeath => 0xa4,
            PacketType::BattleLog => 0xae,
            PacketType::ExperienceAmount => 0xaf,
            PacketType::StatUpdate => 0xa7,
            PacketType::SkillCooldown => 0xb4,
            PacketType::MoveItemRequst => 0xbb,
            PacketType::MoveItem => 0xbe,
            PacketType::SetAgroTarget => 0xc0,
            PacketType::ReceiveItem => 0xc1,
            PacketType::PacketC5 => 0xc5,
            PacketType::StatUpdateRequest => 0xcd,
            PacketType::DialogEntryReq => 0xd4,
            PacketType::DialogEntryCheckQuest => 0xd5,
            PacketType::DialogClose => 0xd7,
            PacketType::DialogEntryRes => 0xd8,
            PacketType::BuyItemRequest => 0x103,
            PacketType::SellItemRequest => 0x105,
            PacketType::BuyBackRequest => 0x106,
            PacketType::BuyBack => 0x107,
            PacketType::CompressedData => 0x129,
            PacketType::CompressedData2 => 0x12a,
            PacketType::StartEntityAction => 0x12f,
            PacketType::StopEntityAction => 0x130,
            PacketType::AbortCurrentAction => 0x131,
            PacketType::AbortEntityAction => 0x132,
            PacketType::GuildAvatar => 0x148,
            PacketType::CheckFriendsStatus => 0x162,
            PacketType::FriendStatus => 0x163,
            PacketType::ShowEmotion => 0x194,
            PacketType::ShowEmotionRequest => 0x196,
            PacketType::Heartbeat2 => 0x199,
            PacketType::Heartbeat3 => 0x19c,
            PacketType::ExitRequest => 0x1d4,
            PacketType::ExitResponse => 0x1d5,
            PacketType::ExitRequestIngame => 0x1d7,
            PacketType::ExitResponseIngame => 0x1d8,
        }
    }

    /// The name of a packet type.
    pub open spec fn spec_name(self) -> &'static str {
        match self {
            PacketType::AuthRequest => "AuthRequest",
            PacketType::ServerList => "ServerList",
            PacketType::PinResult => "PinResult",
            PacketType::ConnectionClose => "ConnectionClose",
            PacketType::FetchServerList => "FetchServerList",
            PacketType::ServerListResponse => "ServerListResponse",
            PacketType::Connect => "Connect",
            PacketType::TimeSync => "TimeSync",
            PacketType::TimeSyncResponse => "TimeSyncResponse",
            PacketType::ConnectionError => "ConnectionError",
            PacketType::AccountInfo => "AccountInfo",
            PacketType::PremiumCode => "PremiumCode",
            PacketType::PremiumCodeResponse => "PremiumCodeResponse",
            PacketType::ServerVars => "ServerVars",
            PacketType::Packet13 => "Packet13",
            PacketType::Packet16 => "Packet16",
            PacketType::SteamDlcInstalled => "SteamDlcInstalled",
            PacketType::DailyReward => "DailyReward",
            PacketType::TakeReward => "TakeReward",
            PacketType::SteamMicroTxn => "SteamMicroTxn",
            PacketType::PlayerData => "PlayerData",
            PacketType::EnterWorldRequest => "EnterWorldRequest",
            PacketType::Inventory => "Inventory",
            PacketType::EnterWorldResponse => "EnterWorldResponse",
            PacketType::TestCharNameReq => "TestCharNameReq",
            PacketType::TestCharNameResp => "TestCharNameResp",
            PacketType::CreateCharacterReq => "CreateCharacterReq",
            PacketType::CreateCharacterRes => "CreateCharacterRes",
            PacketType::HeartbeatClient => "HeartbeatClient",
            PacketType::HeartbeatServer => "HeartbeatServer",
            PacketType::SendChatMessage => "SendChatMessage",
            PacketType::ChatMessage => "ChatMessage",
            PacketType::UpdateBalance => "UpdateBalance",
            PacketType::SwitchLocation => "SwitchLocation",
            PacketType::ConnectionClose2 => "ConnectionClose2",
            PacketType::EntityAdd => "EntityAdd",
            PacketType::EntityMove => "EntityMove",
            PacketType::EntityDrop => "EntityDrop",
            PacketType::EntityRemove => "EntityRemove",
            PacketType::EntityRemove2 => "EntityRemove2",
            PacketType::CharacterMove => "CharacterMove",
            PacketType::PosCamera => "PosCamera",
            PacketType::UseAbility => "UseAbility",
            PacketType::PickupRequest => "PickupRequest",
            PacketType::EntityAction => "EntityAction",
            PacketType::DealtDamage => "DealtDamage",
            PacketType::EntityActionPassive => "EntityActionPassive",
            PacketType::EntityDeath => "EntityDeath",
            PacketType::BattleLog => "BattleLog",
            PacketType::ExperienceAmount => "ExperienceAmount",
            PacketType::StatUpdate => "StatUpdate",
            PacketType::SkillCooldown => "SkillCooldown",
            PacketType::MoveItemRequst => "MoveItemRequst",
            PacketType::MoveItem => "MoveItem",
            PacketType::SetAgroTarget => "SetAgroTarget",
            PacketType::ReceiveItem => "ReceiveItem",
            PacketType::PacketC5 => "PacketC5",
            PacketType::StatUpdateRequest => "StatUpdateRequest",
            PacketType::DialogEntryReq => "DialogEntryReq",
            PacketType::DialogEntryCheckQuest => "DialogEntryCheckQuest",
            PacketType::DialogClose => "DialogClose",
            PacketType::DialogEntryRes => "DialogEntryRes",
            PacketType::BuyItemRequest => "BuyItemRequest",
            PacketType::SellItemRequest => "SellItemRequest",
            PacketType::BuyBackRequest => "BuyBackRequest",
            PacketType::BuyBack => "BuyBack",
            PacketType::CompressedData => "CompressedData",
            PacketType::CompressedData2 => "CompressedData2",
            PacketType::StartEntityAction => "StartEntityAction",
            PacketType::StopEntityAction => "StopEntityAction",
            PacketType::AbortCurrentAction => "AbortCurrentAction",
            PacketType::AbortEntityAction => "AbortEntityAction",
            PacketType::GuildAvatar => "GuildAvatar",
            PacketType::CheckFriendsStatus => "CheckFriendsStatus",
            PacketType::FriendStatus => "FriendStatus",
            PacketType::ShowEmotion => "ShowEmotion",
            PacketType::ShowEmotionRequest => "ShowEmotionRequest",
            PacketType::Heartbeat2 => "Heartbeat2",
            PacketType::Heartbeat3 => "Heartbeat3",
            PacketType::ExitRequest => "ExitRequest",
            PacketType::ExitResponse => "ExitResponse",
            PacketType::ExitRequestIngame => "ExitRequestIngame",
            PacketType::ExitResponseIngame => "ExitResponseIngame",
        }
    }

    /// The packet type with the given code, if one is known.
    pub fn from_u16(code: u16) -> (r: Option<PacketType>)
        ensures
            r == Self::spec_from_u16(code),
    {
        match code {
            0x1 => Some(PacketType::AuthRequest),
            0x2 => Some(PacketType::ServerList),
            0x6 => Some(PacketType::PinResult),
            0x8 => Some(PacketType::ConnectionClose),
            0x9 => Some(PacketType::FetchServerList),
            0xa => Some(PacketType::ServerListResponse),
            0xc => Some(PacketType::Connect),
            0xd => Some(PacketType::TimeSync),
            0xf => Some(PacketType::TimeSyncResponse),
            0xe => Some(PacketType::ConnectionError),
            0x11 => Some(PacketType::AccountInfo),
            0x1c => Some(PacketType::PremiumCode),
            0x1d => Some(PacketType::PremiumCodeResponse),
            0x12 => Some(PacketType::ServerVars),
            0x13 => Some(PacketType::Packet13),
            0x16 => Some(PacketType::Packet16),
            0x25 => Some(PacketType::SteamDlcInstalled),
            0x23 => Some(PacketType::DailyReward),
            0x24 => Some(PacketType::TakeReward),
            0x28 => Some(PacketType::SteamMicroTxn),
            0x33 => Some(PacketType::PlayerData),
            0x34 => Some(PacketType::EnterWorldRequest),
            0x38 => Some(PacketType::Inventory),
            0x39 => Some(PacketType::EnterWorldResponse),
            0x3f => Some(PacketType::TestCharNameReq),
            0x40 => Some(PacketType::TestCharNameResp),
            0x41 => Some(PacketType::CreateCharacterReq),
            0x43 => Some(PacketType::CreateCharacterRes),
            0x46 => Some(PacketType::HeartbeatClient),
            0x47 => Some(PacketType::HeartbeatServer),
            0x4d => Some(PacketType::SendChatMessage),
            0x4e => Some(PacketType::ChatMessage),
            0x52 => Some(PacketType::UpdateBalance),
            0x53 => Some(PacketType::SwitchLocation),
            0x56 => Some(PacketType::ConnectionClose2),
            0x5a => Some(PacketType::EntityAdd),
            0x5c => Some(PacketType::EntityMove),
            0x5d => Some(PacketType::EntityDrop),
            0x5e => Some(PacketType::EntityRemove),
            0x5b => Some(PacketType::EntityRemove2),
            0x5f => Some(PacketType::CharacterMove),
            0x64 => Some(PacketType::PosCamera),
            0x92 => Some(PacketType::UseAbility),
            0x95 => Some(PacketType::PickupRequest),
            0x9a => Some(PacketType::EntityAction),
            0x9c => Some(PacketType::DealtDamage),
            0xa0 => Some(PacketType::EntityActionPassive),
            0xa4 => Some(PacketType::EntityDeath),
            0xae => Some(PacketType::BattleLog),
            0xaf => Some(PacketType::ExperienceAmount),
            0xa7 => Some(PacketType::StatUpdate),
            0xb4 => Some(PacketType::SkillCooldown),
            0xbb => Some(PacketType::MoveItemRequst),
            0xbe => Some(PacketType::MoveItem),
            0xc0 => Some(PacketType::SetAgroTarget),
            0xc1 => Some(PacketType::ReceiveItem),
            0xc5 => Some(PacketType::PacketC5),
            0xcd => Some(PacketType::StatUpdateRequest),
            0xd4 => Some(PacketType::DialogEntryReq),
            0xd5 => Some(PacketType::DialogEntryCheckQuest),
            0xd7 => Some(PacketType::DialogClose),
            0xd8 => Some(PacketType::DialogEntryRes),
            0x103 => Some(PacketType::BuyItemRequest),
            0x105 => Some(PacketType::SellItemRequest),
            0x106 => Some(PacketType::BuyBackRequest),
            0x107 => Some(PacketType::BuyBack),
            0x129 => Some(PacketType::CompressedData),
            0x12a => Some(PacketType::CompressedData2),
            0x12f => Some(PacketType::StartEntityAction),
            0x130 => Some(PacketType::StopEntityAction),
            0x131 => Some(PacketType::AbortCurrentAction),
            0x132 => Some(PacketType::AbortEntityAction),
            0x148 => Some(PacketType::GuildAvatar),
            0x162 => Some(PacketType::CheckFriendsStatus),
            0x163 => Some(PacketType::FriendStatus),
            0x194 => Some(PacketType::ShowEmotion),
            0x196 => Some(PacketType::ShowEmotionRequest),
            0x199 => Some(PacketType::Heartbeat2),
            0x19c => Some(PacketType::Heartbeat3),
            0x1d4 => Some(PacketType::ExitRequest),
            0x1d5 => Some(PacketType::ExitResponse),
            0x1d7 => Some(PacketType::ExitRequestIngame),
            0x1d8 => Some(PacketType::ExitResponseIngame),
            _ => None,
        }
    }

    /// The code of a packet type.
    pub fn code(self) -> (r: u16)
        ensures
            r == self.spec_code(),
    {
        match self {
            PacketType::AuthRequest => 0x1,
            PacketType::ServerList => 0x2,
            PacketType::PinResult => 0x6,
            PacketType::ConnectionClose => 0x8,
            PacketType::FetchServerList => 0x9,
            PacketType::ServerListResponse => 0xa,
            PacketType::Connect => 0xc,
            PacketType::TimeSync => 0xd,
            PacketType::TimeSyncResponse => 0xf,
            PacketType::ConnectionError => 0xe,
            PacketType::AccountInfo => 0x11,
            PacketType::PremiumCode => 0x1c,
            PacketType::PremiumCodeResponse => 0x1d,
            PacketType::ServerVars => 0x12,
            PacketType::Packet13 => 0x13,
            PacketType::Packet16 => 0x16,
            PacketType::SteamDlcInstalled => 0x25,
            PacketType::DailyReward => 0x23,
            PacketType::TakeReward => 0x24,
            PacketType::SteamMicroTxn => 0x28,
            PacketType::PlayerData => 0x33,
            PacketType::EnterWorldRequest => 0x34,
            PacketType::Inventory => 0x38,
            PacketType::EnterWorldResponse => 0x39,
            PacketType::TestCharNameReq => 0x3f,
            PacketType::TestCharNameResp => 0x40,
            PacketType::CreateCharacterReq => 0x41,
            PacketType::CreateCharacterRes => 0x43,
            PacketType::HeartbeatClient => 0x46,
            PacketType::HeartbeatServer => 0x47,
            PacketType::SendChatMessage => 0x4d,
            PacketType::ChatMessage => 0x4e,
            PacketType::UpdateBalance => 0x52,
            PacketType::SwitchLocation => 0x53,
            PacketType::ConnectionClose2 => 0x56,
            PacketType::EntityAdd => 0x5a,
            PacketType::EntityMove => 0x5c,
            PacketType::EntityDrop => 0x5d,
            PacketType::EntityRemove => 0x5e,
            PacketType::EntityRemove2 => 0x5b,
            PacketType::CharacterMove => 0x5f,
            PacketType::PosCamera => 0x64,
            PacketType::UseAbility => 0x92,
            PacketType::PickupRequest => 0x95,
            PacketType::EntityAction => 0x9a,
            PacketType::DealtDamage => 0x9c,
            PacketType::EntityActionPassive => 0xa0,
            PacketType::EntityDeath => 0xa4,
            PacketType::BattleLog => 0xae,
            PacketType::ExperienceAmount => 0xaf,
            PacketType::StatUpdate => 0xa7,
            PacketType::SkillCooldown => 0xb4,
            PacketType::MoveItemRequst => 0xbb,
            PacketType::MoveItem => 0xbe,
            PacketType::SetAgroTarget => 0xc0,
            PacketType::ReceiveItem => 0xc1,
            PacketType::PacketC5 => 0xc5,
            PacketType::StatUpdateRequest => 0xcd,
            PacketType::DialogEntryReq => 0xd4,
            PacketType::DialogEntryCheckQuest => 0xd5,
            PacketType::DialogClose => 0xd7,
            PacketType::DialogEntryRes => 0xd8,
            PacketType::BuyItemRequest => 0x103,
            PacketType::SellItemRequest => 0x105,
            PacketType::BuyBackRequest => 0x106,
            PacketType::BuyBack => 0x107,
            PacketType::CompressedData => 0x129,
            PacketType::CompressedData2 => 0x12a,
            PacketType::StartEntityAction => 0x12f,
            PacketType::StopEntityAction => 0x130,
            PacketType::AbortCurrentAction => 0x131,
            PacketType::AbortEntityAction => 0x132,
            PacketType::GuildAvatar => 0x148,
            PacketType::CheckFriendsStatus => 0x162,
            PacketType::FriendStatus => 0x163,
            PacketType::ShowEmotion => 0x194,
            PacketType::ShowEmotionRequest => 0x196,
            PacketType::Heartbeat2 => 0x199,
            PacketType::Heartbeat3 => 0x19c,
            PacketType::ExitRequest => 0x1d4,
            PacketType::ExitResponse => 0x1d5,
            PacketType::ExitRequestIngame => 0x1d7,
            PacketType::ExitResponseIngame => 0x1d8,
        }
    }

    /// The name of a packet type.
    pub fn name(self) -> (r: &'static str)
        ensures
            r == self.spec_name(),
    {
        match self {
            PacketType::AuthRequest => "AuthRequest",
            PacketType::ServerList => "ServerList",
            PacketType::PinResult => "PinResult",
            PacketType::ConnectionClose => "ConnectionClose",
            PacketType::FetchServerList => "FetchServerList",
            PacketType::ServerListResponse => "ServerListResponse",
            PacketType::Connect => "Connect",
            PacketType::TimeSync => "TimeSync",
            PacketType::TimeSyncResponse => "TimeSyncResponse",
            PacketType::ConnectionError => "ConnectionError",
            PacketType::AccountInfo => "AccountInfo",
            PacketType::PremiumCode => "PremiumCode",
            PacketType::PremiumCodeResponse => "PremiumCodeResponse",
            PacketType::ServerVars => "ServerVars",
            PacketType::Packet13 => "Packet13",
            PacketType::Packet16 => "Packet16",
            PacketType::SteamDlcInstalled => "SteamDlcInstalled",
            PacketType::DailyReward => "DailyReward",
            PacketType::TakeReward => "TakeReward",
            PacketType::SteamMicroTxn => "SteamMicroTxn",
            PacketType::PlayerData => "PlayerData",
            PacketType::EnterWorldRequest => "EnterWorldRequest",
            PacketType::Inventory => "Inventory",
            PacketType::EnterWorldResponse => "EnterWorldResponse",
            PacketType::TestCharNameReq => "TestCharNameReq",
            PacketType::TestCharNameResp => "TestCharNameResp",
            PacketType::CreateCharacterReq => "CreateCharacterReq",
            PacketType::CreateCharacterRes => "CreateCharacterRes",
            PacketType::HeartbeatClient => "HeartbeatClient",
            PacketType::HeartbeatServer => "HeartbeatServer",
            PacketType::SendChatMessage => "SendChatMessage",
            PacketType::ChatMessage => "ChatMessage",
            PacketType::UpdateBalance => "UpdateBalance",
            PacketType::SwitchLocation => "SwitchLocation",
            PacketType::ConnectionClose2 => "ConnectionClose2",
            PacketType::EntityAdd => "EntityAdd",
            PacketType::EntityMove => "EntityMove",
            PacketType::EntityDrop => "EntityDrop",
            PacketType::EntityRemove => "EntityRemove",
            PacketType::EntityRemove2 => "EntityRemove2",
            PacketType::CharacterMove => "CharacterMove",
            PacketType::PosCamera => "PosCamera",
            PacketType::UseAbility => "UseAbility",
            PacketType::PickupRequest => "PickupRequest",
            PacketType::EntityAction => "EntityAction",
            PacketType::DealtDamage => "DealtDamage",
            PacketType::EntityActionPassive => "EntityActionPassive",
            PacketType::EntityDeath => "EntityDeath",
            PacketType::BattleLog => "BattleLog",
            PacketType::ExperienceAmount => "ExperienceAmount",
            PacketType::StatUpdate => "StatUpdate",
            PacketType::SkillCooldown => "SkillCooldown",
            PacketType::MoveItemRequst => "MoveItemRequst",
            PacketType::MoveItem => "MoveItem",
            PacketType::SetAgroTarget => "SetAgroTarget",
            PacketType::ReceiveItem => "ReceiveItem",
            PacketType::PacketC5 => "PacketC5",
            PacketType::StatUpdateRequest => "StatUpdateRequest",
            PacketType::DialogEntryReq => "DialogEntryReq",
            PacketType::DialogEntryCheckQuest => "DialogEntryCheckQuest",
            PacketType::DialogClose => "DialogClose",
            PacketType::DialogEntryRes => "DialogEntryRes",
            PacketType::BuyItemRequest => "BuyItemRequest",
            PacketType::SellItemRequest => "SellItemRequest",
            PacketType::BuyBackRequest => "BuyBackRequest",
            PacketType::BuyBack => "BuyBack",
            PacketType::CompressedData => "CompressedData",
            PacketType::CompressedData2 => "CompressedData2",
            PacketType::StartEntityAction => "StartEntityAction",
            PacketType::StopEntityAction => "StopEntityAction",
            PacketType::AbortCurrentAction => "AbortCurrentAction",
            PacketType::AbortEntityAction => "AbortEntityAction",
            PacketType::GuildAvatar => "GuildAvatar",
            PacketType::CheckFriendsStatus => "CheckFriendsStatus",
            PacketType::FriendStatus => "FriendStatus",
            PacketType::ShowEmotion => "ShowEmotion",
            PacketType::ShowEmotionRequest => "ShowEmotionRequest",
            PacketType::Heartbeat2 => "Heartbeat2",
            PacketType::Heartbeat3 => "Heartbeat3",
            PacketType::ExitRequest => "ExitRequest",
            PacketType::ExitResponse => "ExitResponse",
            PacketType::ExitRequestIngame => "ExitRequestIngame",
            PacketType::ExitResponseIngame => "ExitResponseIngame",
        }
    }
}

/// Code law: the code of a packet type names that type, and a known code is
/// the code of the type it names.
pub proof fn lemma_packet_type_code(t: PacketType, code: u16)
    ensures
        PacketType::spec_from_u16(t.spec_code()) == Some(t),
        PacketType::spec_from_u16(code) == Some(t) ==> t.spec_code() == code,
{
}



#[derive(Debug, Clone, PartialEq, Eq)]
pub struct AuthRequest {
    /// time + 354 (game version number at time of capture)
    pub pc_millis_shift: U32,
    /// Just time
    pub pc_millis: U32,
    /// /place base|steam
    /// 32  - Steam
    /// 16 - BASE
    pub auth_type: U8,
    /// /account-id <string>
    pub account_id: RString,
    pub unk0: RString,
    pub rdtsc: U64,
    /// /sign-in-code <string>
    pub sign_in_code: RString,
    pub unk2: RString,
    pub unk3: RBool,
    pub unk4: RBool,
    pub unk5: U32,
    pub unk6: RVec<Op36>,
    pub unk7: U32,
    pub unk8: U64,
    pub unk9: U16,
    pub unk10: RString,
    pub unk11: RString,
    pub unk12: RString,
    /// /gateway classic
    pub gateway: RString,
}

/// Mathematical form of [`AuthRequest`].
pub struct AuthRequestView {
    pub pc_millis_shift: U32,
    pub pc_millis: U32,
    pub auth_type: U8,
    pub account_id: Seq<char>,
    pub unk0: Seq<char>,
    pub rdtsc: U64,
    pub sign_in_code: Seq<char>,
    pub unk2: Seq<char>,
    pub unk3: RBool,
    pub unk4: RBool,
    pub unk5: U32,
    pub unk6: Seq<Op36>,
    pub unk7: U32,
    pub unk8: U64,
    pub unk9: U16,
    pub unk10: Seq<char>,
    pub unk11: Seq<char>,
    pub unk12: Seq<char>,
    pub gateway: Seq<char>,
}

impl View for AuthRequest {
    type V = AuthRequestView;

    open spec fn view(&self) -> AuthRequestView {
        AuthRequestView {
            pc_millis_shift: self.pc_millis_shift@,
            pc_millis: self.pc_millis@,
            auth_type: self.auth_type@,
            account_id: self.account_id@,
            unk0: self.unk0@,
            rdtsc: self.rdtsc@,
            sign_in_code: self.sign_in_code@,
            unk2: self.unk2@,
            unk3: self.unk3@,
            unk4: self.unk4@,
            unk5: self.unk5@,
            unk6: self.unk6@,
            unk7: self.unk7@,
            unk8: self.unk8@,
            unk9: self.unk9@,
            unk10: self.unk10@,
            unk11: self.unk11@,
            unk12: self.unk12@,
            gateway: self.gateway@,
        }
    }
}

/// Reading fields `pc_millis_shift`, `pc_millis`, `auth_type`, `account_id`, `unk0`, `rdtsc` of [`AuthRequest`].
#[verifier::opaque]
pub open spec fn spec_auth_request_part0(s: Seq<u8>, p: int) -> SpecRead<(U32, U32, U8, Seq<char>, Seq<char>, U64,)> {
        match U32::spec_parse(s, p) {
            Err(e) => Err(e),
            Ok((pc_millis_shift, p1)) => 
            match U32::spec_parse(s, p1) {
                Err(e) => Err(e),
                Ok((pc_millis, p2)) => 
                match U8::spec_parse(s, p2) {
                    Err(e) => Err(e),
                    Ok((auth_type, p3)) => 
                    match RString::spec_parse(s, p3) {
                        Err(e) => Err(e),
                        Ok((account_id, p4)) => 
                        match RString::spec_parse(s, p4) {
                            Err(e) => Err(e),
                            Ok((unk0, p5)) => 
                            match U64::spec_parse(s, p5) {
                                Err(e) => Err(e),
                                Ok((rdtsc, p6)) => 
                                Ok(((pc_millis_shift, pc_millis, auth_type, account_id, unk0, rdtsc,), p6))
                            }
                        }
                    }
                }
            }
        }
}

/// The bytes of fields `pc_millis_shift`, `pc_millis`, `auth_type`, `account_id`, `unk0`, `rdtsc` of [`AuthRequest`].
#[verifier::opaque]
pub open spec fn ser_auth_request_part0(v: AuthRequestView) -> Seq<u8> {
    (((((U32::spec_ser(v.pc_millis_shift)) + (U32::spec_ser(v.pc_millis))) + (U8::spec_ser(v.auth_type))) + (RString::spec_ser(v.account_id))) + (RString::spec_ser(v.unk0))) + (U64::spec_ser(v.rdtsc))
}

#[verifier::opaque]
pub open spec fn wf_auth_request_part0(v: AuthRequestView) -> bool {
    U32::spec_wf(v.pc_millis_shift) && U32::spec_wf(v.pc_millis) && U8::spec_wf(v.auth_type) && RString::spec_wf(v.account_id) && RString::spec_wf(v.unk0) && U64::spec_wf(v.rdtsc)
}

#[verifier::spinoff_prover]
#[verifier::rlimit(100)]
proof fn lemma_auth_request_part0(v: AuthRequestView, s: Seq<u8>, p: int)
    requires
        wf_auth_request_part0(v),
        0 <= p,
        p + ser_auth_request_part0(v).len() <= s.len(),
        s.subrange(p, p + ser_auth_request_part0(v).len()) == ser_auth_request_part0(v),
    ensures
        spec_auth_request_part0(s, p) == Ok::<((U32, U32, U8, Seq<char>, Seq<char>, U64,), int), BinError>(((v.pc_millis_shift, v.pc_millis, v.auth_type, v.account_id, v.unk0, v.rdtsc,), p + ser_auth_request_part0(v).len())),
{
    reveal(spec_auth_request_part0);
    reveal(ser_auth_request_part0);
    reveal(wf_auth_request_part0);
        let b0 = U32::spec_ser(v.pc_millis_shift);
        let b1 = U32::spec_ser(v.pc_millis);
        let b2 = U8::spec_ser(v.auth_type);
        let b3 = RString::spec_ser(v.account_id);
        let b4 = RString::spec_ser(v.unk0);
        let b5 = U64::spec_ser(v.rdtsc);
        let a0 = b0;
        let a1 = a0 + b1;
        let a2 = a1 + b2;
        let a3 = a2 + b3;
        let a4 = a3 + b4;
        let a5 = a4 + b5;
        lemma_subrange_prefix(s, p, a4, b5);
        lemma_subrange_prefix(s, p, a3, b4);
        lemma_subrange_prefix(s, p, a2, b3);
        lemma_subrange_prefix(s, p, a1, b2);
        lemma_subrange_prefix(s, p, a0, b1);
        U32::lemma_roundtrip(v.pc_millis_shift, s, p);
        U32::lemma_roundtrip(v.pc_millis, s, p + a0.len());
        U8::lemma_roundtrip(v.auth_type, s, p + a1.len());
        RString::lemma_roundtrip(v.account_id, s, p + a2.len());
        RString::lemma_roundtrip(v.unk0, s, p + a3.len());
        U64::lemma_roundtrip(v.rdtsc, s, p + a4.len());
}

fn parse_auth_request_part0(data: &[u8], p: usize) -> (r: Result<((U32, U32, U8, RString, RString, U64,), usize), BinError>)
    requires
        p <= data@.len(),
    ensures
        r matches Ok((_, q)) ==> p <= q <= data@.len(),
        match r {
            Ok((x, q)) => spec_auth_request_part0(data@, p as int) == Ok::<((U32, U32, U8, Seq<char>, Seq<char>, U64,), int), BinError>(((x.0@, x.1@, x.2@, x.3@, x.4@, x.5@,), q as int)),
            Err(e) => spec_auth_request_part0(data@, p as int) == Err::<((U32, U32, U8, Seq<char>, Seq<char>, U64,), int), BinError>(e),
        },
{
    reveal(spec_auth_request_part0);
        let (pc_millis_shift, p1) = U32::parse(data, p)?;
        let (pc_millis, p2) = U32::parse(data, p1)?;
        let (auth_type, p3) = U8::parse(data, p2)?;
        let (account_id, p4) = RString::parse(data, p3)?;
        let (unk0, p5) = RString::parse(data, p4)?;
        let (rdtsc, p6) = U64::parse(data, p5)?;
        Ok(((pc_millis_shift, pc_millis, auth_type, account_id, unk0, rdtsc,), p6))
}

impl AuthRequest {
    fn write_auth_request_part0(&self, out: &mut Vec<u8>)
        ensures
            final(out)@ == old(out)@ + ser_auth_request_part0(self@),
    {
        reveal(ser_auth_request_part0);
            self.pc_millis_shift.write(out);
            self.pc_millis.write(out);
            self.auth_type.write(out);
            self.account_id.write(out);
            self.unk0.write(out);
            self.rdtsc.write(out);
        assert(final(out)@ =~= old(out)@ + ser_auth_request_part0(self@));
    }
}

/// Reading fields `sign_in_code`, `unk2`, `unk3`, `unk4`, `unk5`, `unk6` of [`AuthRequest`].
#[verifier::opaque]
pub open spec fn spec_auth_request_part1(s: Seq<u8>, p: int) -> SpecRead<(Seq<char>, Seq<char>, RBool, RBool, U32, Seq<Op36>,)> {
        match RString::spec_parse(s, p) {
            Err(e) => Err(e),
            Ok((sign_in_code, p1)) => 
            match RString::spec_parse(s, p1) {
                Err(e) => Err(e),
                Ok((unk2, p2)) => 
                match RBool::spec_parse(s, p2) {
                    Err(e) => Err(e),
                    Ok((unk3, p3)) => 
                    match RBool::spec_parse(s, p3) {
                        Err(e) => Err(e),
                        Ok((unk4, p4)) => 
                        match U32::spec_parse(s, p4) {
                            Err(e) => Err(e),
                            Ok((unk5, p5)) => 
                            match RVec::<Op36>::spec_parse(s, p5) {
                                Err(e) => Err(e),
                                Ok((unk6, p6)) => 
                                Ok(((sign_in_code, unk2, unk3, unk4, unk5, unk6,), p6))
                            }
                        }
                    }
                }
            }
        }
}

/// The bytes of fields `sign_in_code`, `unk2`, `unk3`, `unk4`, `unk5`, `unk6` of [`AuthRequest`].
#[verifier::opaque]
pub open spec fn ser_auth_request_part1(v: AuthRequestView) -> Seq<u8> {
    (((((RString::spec_ser(v.sign_in_code)) + (RString::spec_ser(v.unk2))) + (RBool::spec_ser(v.unk3))) + (RBool::spec_ser(v.unk4))) + (U32::spec_ser(v.unk5))) + (RVec::<Op36>::spec_ser(v.unk6))
}

#[verifier::opaque]
pub open spec fn wf_auth_request_part1(v: AuthRequestView) -> bool {
    RString::spec_wf(v.sign_in_code) && RString::spec_wf(v.unk2) && RBool::spec_wf(v.unk3) && RBool::spec_wf(v.unk4) && U32::spec_wf(v.unk5) && RVec::<Op36>::spec_wf(v.unk6)
}

#[verifier::spinoff_prover]
#[verifier::rlimit(100)]
proof fn lemma_auth_request_part1(v: AuthRequestView, s: Seq<u8>, p: int)
    requires
        wf_auth_request_part1(v),
        0 <= p,
        p + ser_auth_request_part1(v).len() <= s.len(),
        s.subrange(p, p + ser_auth_request_part1(v).len()) == ser_auth_request_part1(v),
    ensures
        spec_auth_request_part1(s, p) == Ok::<((Seq<char>, Seq<char>, RBool, RBool, U32, Seq<Op36>,), int), BinError>(((v.sign_in_code, v.unk2, v.unk3, v.unk4, v.unk5, v.unk6,), p + ser_auth_request_part1(v).len())),
{
    reveal(spec_auth_request_part1);
    reveal(ser_auth_request_part1);
    reveal(wf_auth_request_part1);
        let b0 = RString::spec_ser(v.sign_in_code);
        let b1 = RString::spec_ser(v.unk2);
        let b2 = RBool::spec_ser(v.unk3);
        let b3 = RBool::spec_ser(v.unk4);
        let b4 = U32::spec_ser(v.unk5);
        let b5 = RVec::<Op36>::spec_ser(v.unk6);
        let a0 = b0;
        let a1 = a0 + b1;
        let a2 = a1 + b2;
        let a3 = a2 + b3;
        let a4 = a3 + b4;
        let a5 = a4 + b5;
        lemma_subrange_prefix(s, p, a4, b5);
        lemma_subrange_prefix(s, p, a3, b4);
        lemma_subrange_prefix(s, p, a2, b3);
        lemma_subrange_prefix(s, p, a1, b2);
        lemma_subrange_prefix(s, p, a0, b1);
        RString::lemma_roundtrip(v.sign_in_code, s, p);
        RString::lemma_roundtrip(v.unk2, s, p + a0.len());
        RBool::lemma_roundtrip(v.unk3, s, p + a1.len());
        RBool::lemma_roundtrip(v.unk4, s, p + a2.len());
        U32::lemma_roundtrip(v.unk5, s, p + a3.len());
        RVec::<Op36>::lemma_roundtrip(v.unk6, s, p + a4.len());
}

fn parse_auth_request_part1(data: &[u8], p: usize) -> (r: Result<((RString, RString, RBool, RBool, U32, RVec<Op36>,), usize), BinError>)
    requires
        p <= data@.len(),
    ensures
        r matches Ok((_, q)) ==> p <= q <= data@.len(),
        match r {
            Ok((x, q)) => spec_auth_request_part1(data@, p as int) == Ok::<((Seq<char>, Seq<char>, RBool, RBool, U32, Seq<Op36>,), int), BinError>(((x.0@, x.1@, x.2@, x.3@, x.4@, x.5@,), q as int)),
            Err(e) => spec_auth_request_part1(data@, p as int) == Err::<((Seq<char>, Seq<char>, RBool, RBool, U32, Seq<Op36>,), int), BinError>(e),
        },
{
    reveal(spec_auth_request_part1);
        let (sign_in_code, p1) = RString::parse(data, p)?;
        let (unk2, p2) = RString::parse(data, p1)?;
        let (unk3, p3) = RBool::parse(data, p2)?;
        let (unk4, p4) = RBool::parse(data, p3)?;
        let (unk5, p5) = U32::parse(data, p4)?;
        let (unk6, p6) = RVec::<Op36>::parse(data, p5)?;
        Ok(((sign_in_code, unk2, unk3, unk4, unk5, unk6,), p6))
}

impl AuthRequest {
    fn write_auth_request_part1(&self, out: &mut Vec<u8>)
        ensures
            final(out)@ == old(out)@ + ser_auth_request_part1(self@),
    {
        reveal(ser_auth_request_part1);
            self.sign_in_code.write(out);
            self.unk2.write(out);
            self.unk3.write(out);
            self.unk4.write(out);
            self.unk5.write(out);
            self.unk6.write(out);
        assert(final(out)@ =~= old(out)@ + ser_auth_request_part1(self@));
    }
}

/// Reading fields `unk7`, `unk8`, `unk9`, `unk10`, `unk11`, `unk12`, `gateway` of [`AuthRequest`].
#[verifier::opaque]
pub open spec fn spec_auth_request_part2(s: Seq<u8>, p: int) -> SpecRead<(U32, U64, U16, Seq<char>, Seq<char>, Seq<char>, Seq<char>,)> {
        match U32::spec_parse(s, p) {
            Err(e) => Err(e),
            Ok((unk7, p1)) => 
            match U64::spec_parse(s, p1) {
                Err(e) => Err(e),
                Ok((unk8, p2)) => 
                match U16::spec_parse(s, p2) {
                    Err(e) => Err(e),
                    Ok((unk9, p3)) => 
                    match RString::spec_parse(s, p3) {
                        Err(e) => Err(e),
                        Ok((unk10, p4)) => 
                        match RString::spec_parse(s, p4) {
                            Err(e) => Err(e),
                            Ok((unk11, p5)) => 
                            match RString::spec_parse(s, p5) {
                                Err(e) => Err(e),
                                Ok((unk12, p6)) => 
                                match RString::spec_parse(s, p6) {
                                    Err(e) => Err(e),
                                    Ok((gateway, p7)) => 
                                    Ok(((unk7, unk8, unk9, unk10, unk11, unk12, gateway,), p7))
                                }
                            }
                        }
                    }
                }
            }
        }
}

/// The bytes of fields `unk7`, `unk8`, `unk9`, `unk10`, `unk11`, `unk12`, `gateway` of [`AuthRequest`].
#[verifier::opaque]
pub open spec fn ser_auth_request_part2(v: AuthRequestView) -> Seq<u8> {
    ((((((U32::spec_ser(v.unk7)) + (U64::spec_ser(v.unk8))) + (U16::spec_ser(v.unk9))) + (RString::spec_ser(v.unk10))) + (RString::spec_ser(v.unk11))) + (RString::spec_ser(v.unk12))) + (RString::spec_ser(v.gateway))
}

#[verifier::opaque]
pub open spec fn wf_auth_request_part2(v: AuthRequestView) -> bool {
    U32::spec_wf(v.unk7) && U64::spec_wf(v.unk8) && U16::spec_wf(v.unk9) && RString::spec_wf(v.unk10) && RString::spec_wf(v.unk11) && RString::spec_wf(v.unk12) && RString::spec_wf(v.gateway)
}

#[verifier::spinoff_prover]
#[verifier::rlimit(100)]
proof fn lemma_auth_request_part2(v: AuthRequestView, s: Seq<u8>, p: int)
    requires
        wf_auth_request_part2(v),
        0 <= p,
        p + ser_auth_request_part2(v).len() <= s.len(),
        s.subrange(p, p + ser_auth_request_part2(v).len()) == ser_auth_request_part2(v),
    ensures
        spec_auth_request_part2(s, p) == Ok::<((U32, U64, U16, Seq<char>, Seq<char>, Seq<char>, Seq<char>,), int), BinError>(((v.unk7, v.unk8, v.unk9, v.unk10, v.unk11, v.unk12, v.gateway,), p + ser_auth_request_part2(v).len())),
{
    reveal(spec_auth_request_part2);
    reveal(ser_auth_request_part2);
    reveal(wf_auth_request_part2);
        let b0 = U32::spec_ser(v.unk7);
        let b1 = U64::spec_ser(v.unk8);
        let b2 = U16::spec_ser(v.unk9);
        let b3 = RString::spec_ser(v.unk10);
        let b4 = RString::spec_ser(v.unk11);
        let b5 = RString::spec_ser(v.unk12);
        let b6 = RString::spec_ser(v.gateway);
        let a0 = b0;
        let a1 = a0 + b1;
        let a2 = a1 + b2;
        let a3 = a2 + b3;
        let a4 = a3 + b4;
        let a5 = a4 + b5;
        let a6 = a5 + b6;
        lemma_subrange_prefix(s, p, a5, b6);
        lemma_subrange_prefix(s, p, a4, b5);
        lemma_subrange_prefix(s, p, a3, b4);
        lemma_subrange_prefix(s, p, a2, b3);
        lemma_subrange_prefix(s, p, a1, b2);
        lemma_subrange_prefix(s, p, a0, b1);
        U32::lemma_roundtrip(v.unk7, s, p);
        U64::lemma_roundtrip(v.unk8, s, p + a0.len());
        U16::lemma_roundtrip(v.unk9, s, p + a1.len());
        RString::lemma_roundtrip(v.unk10, s, p + a2.len());
        RString::lemma_roundtrip(v.unk11, s, p + a3.len());
        RString::lemma_roundtrip(v.unk12, s, p + a4.len());
        RString::lemma_roundtrip(v.gateway, s, p + a5.len());
}

fn parse_auth_request_part2(data: &[u8], p: usize) -> (r: Result<((U32, U64, U16, RString, RString, RString, RString,), usize), BinError>)
    requires
        p <= data@.len(),
    ensures
        r matches Ok((_, q)) ==> p <= q <= data@.len(),
        match r {
            Ok((x, q)) => spec_auth_request_part2(data@, p as int) == Ok::<((U32, U64, U16, Seq<char>, Seq<char>, Seq<char>, Seq<char>,), int), BinError>(((x.0@, x.1@, x.2@, x.3@, x.4@, x.5@, x.6@,), q as int)),
            Err(e) => spec_auth_request_part2(data@, p as int) == Err::<((U32, U64, U16, Seq<char>, Seq<char>, Seq<char>, Seq<char>,), int), BinError>(e),
        },
{
    reveal(spec_auth_request_part2);
        let (unk7, p1) = U32::parse(data, p)?;
        let (unk8, p2) = U64::parse(data, p1)?;
        let (unk9, p3) = U16::parse(data, p2)?;
        let (unk10, p4) = RString::parse(data, p3)?;
        let (unk11, p5) = RString::parse(data, p4)?;
        let (unk12, p6) = RString::parse(data, p5)?;
        let (gateway, p7) = RString::parse(data, p6)?;
        Ok(((unk7, unk8, unk9, unk10, unk11, unk12, gateway,), p7))
}

impl AuthRequest {
    fn write_auth_request_part2(&self, out: &mut Vec<u8>)
        ensures
            final(out)@ == old(out)@ + ser_auth_request_part2(self@),
    {
        reveal(ser_auth_request_part2);
            self.unk7.write(out);
            self.unk8.write(out);
            self.unk9.write(out);
            self.unk10.write(out);
            self.unk11.write(out);
            self.unk12.write(out);
            self.gateway.write(out);
        assert(final(out)@ =~= old(out)@ + ser_auth_request_part2(self@));
    }
}

impl Wire for AuthRequest {
    open spec fn spec_parse(s: Seq<u8>, p: int) -> SpecRead<AuthRequestView> {
        match spec_auth_request_part0(s, p) {
            Err(e) => Err(e),
            Ok((t0, q0)) => 
            match spec_auth_request_part1(s, q0) {
                Err(e) => Err(e),
                Ok((t1, q1)) => 
                match spec_auth_request_part2(s, q1) {
                    Err(e) => Err(e),
                    Ok((t2, q2)) => 
                    Ok((AuthRequestView { pc_millis_shift: t0.0, pc_millis: t0.1, auth_type: t0.2, account_id: t0.3, unk0: t0.4, rdtsc: t0.5, sign_in_code: t1.0, unk2: t1.1, unk3: t1.2, unk4: t1.3, unk5: t1.4, unk6: t1.5, unk7: t2.0, unk8: t2.1, unk9: t2.2, unk10: t2.3, unk11: t2.4, unk12: t2.5, gateway: t2.6 }, q2))
                }
            }
        }
    }

    open spec fn spec_ser(v: AuthRequestView) -> Seq<u8> {
        ((ser_auth_request_part0(v)) + (ser_auth_request_part1(v))) + (ser_auth_request_part2(v))
    }

    open spec fn spec_wf(v: AuthRequestView) -> bool {
        wf_auth_request_part0(v) && wf_auth_request_part1(v) && wf_auth_request_part2(v)
    }

    fn parse(data: &[u8], p: usize) -> (r: Result<(Self, usize), BinError>) {
        let (t0, q0) = parse_auth_request_part0(data, p)?;
        let (t1, q1) = parse_auth_request_part1(data, q0)?;
        let (t2, q2) = parse_auth_request_part2(data, q1)?;
        Ok((AuthRequest { pc_millis_shift: t0.0, pc_millis: t0.1, auth_type: t0.2, account_id: t0.3, unk0: t0.4, rdtsc: t0.5, sign_in_code: t1.0, unk2: t1.1, unk3: t1.2, unk4: t1.3, unk5: t1.4, unk6: t1.5, unk7: t2.0, unk8: t2.1, unk9: t2.2, unk10: t2.3, unk11: t2.4, unk12: t2.5, gateway: t2.6 }, q2))
    }

    fn write(&self, out: &mut Vec<u8>) {
        self.write_auth_request_part0(out);
        self.write_auth_request_part1(out);
        self.write_auth_request_part2(out);
        assert(final(out)@ =~= old(out)@ + Self::spec_ser(self@));
    }

    proof fn lemma_roundtrip(v: AuthRequestView, s: Seq<u8>, p: int) {
        let b0 = ser_auth_request_part0(v);
        let b1 = ser_auth_request_part1(v);
        let b2 = ser_auth_request_part2(v);
        let a0 = b0;
        let a1 = a0 + b1;
        let a2 = a1 + b2;
        lemma_subrange_prefix(s, p, a1, b2);
        lemma_subrange_prefix(s, p, a0, b1);
        lemma_auth_request_part0(v, s, p);
        lemma_auth_request_part1(v, s, p + a0.len());
        lemma_auth_request_part2(v, s, p + a1.len());
    }
}


#[derive(Debug, Clone, PartialEq, Eq)]
pub struct ServerList {
    pub servers: RVec<ServerDesc>,
    pub unk1: RVec<U16>,
    pub unk2: RVec<U16>,
    pub endpoints: RVec<EndpointDesc>,
    pub unk4: U32,
    pub unk5: RBool,
    pub unk6: U32,
    pub unixtime: U64,
    pub unk8: U32,
    pub mb_selected_server_id: U16,
    pub unk10: U64,
    pub unk11: RBytes,
    pub unk12: U32,
    pub xkey0: U32,
    pub xkey1: U64,
    pub rdtsc_echo: U64,
    pub unk16: RString,
}

/// Mathematical form of [`ServerList`].
pub struct ServerListView {
    pub servers: Seq<ServerDescView>,
    pub unk1: Seq<U16>,
    pub unk2: Seq<U16>,
    pub endpoints: Seq<EndpointDescView>,
    pub unk4: U32,
    pub unk5: RBool,
    pub unk6: U32,
    pub unixtime: U64,
    pub unk8: U32,
    pub mb_selected_server_id: U16,
    pub unk10: U64,
    pub unk11: Seq<u8>,
    pub unk12: U32,
    pub xkey0: U32,
    pub xkey1: U64,
    pub rdtsc_echo: U64,
    pub unk16: Seq<char>,
}

impl View for ServerList {
    type V = ServerListView;

    open spec fn view(&self) -> ServerListView {
        ServerListView {
            servers: self.servers@,
            unk1: self.unk1@,
            unk2: self.unk2@,
            endpoints: self.endpoints@,
            unk4: self.unk4@,
            unk5: self.unk5@,
            unk6: self.unk6@,
            unixtime: self.unixtime@,
            unk8: self.unk8@,
            mb_selected_server_id: self.mb_selected_server_id@,
            unk10: self.unk10@,
            unk11: self.unk11@,
            unk12: self.unk12@,
            xkey0: self.xkey0@,
            xkey1: self.xkey1@,
            rdtsc_echo: self.rdtsc_echo@,
            unk16: self.unk16@,
        }
    }
}

/// Reading fields `servers`, `unk1`, `unk2`, `endpoints`, `unk4`, `unk5` of [`ServerList`].
#[verifier::opaque]
pub open spec fn spec_server_list_part0(s: Seq<u8>, p: int) -> SpecRead<(Seq<ServerDescView>, Seq<U16>, Seq<U16>, Seq<EndpointDescView>, U32, RBool,)> {
        match RVec::<ServerDesc>::spec_parse(s, p) {
            Err(e) => Err(e),
            Ok((servers, p1)) => 
            match RVec::<U16>::spec_parse(s, p1) {
                Err(e) => Err(e),
                Ok((unk1, p2)) => 
                match RVec::<U16>::spec_parse(s, p2) {
                    Err(e) => Err(e),
                    Ok((unk2, p3)) => 
                    match RVec::<EndpointDesc>::spec_parse(s, p3) {
                        Err(e) => Err(e),
                        Ok((endpoints, p4)) => 
                        match U32::spec_parse(s, p4) {
                            Err(e) => Err(e),
                            Ok((unk4, p5)) => 
                            match RBool::spec_parse(s, p5) {
                                Err(e) => Err(e),
                                Ok((unk5, p6)) => 
                                Ok(((servers, unk1, unk2, endpoints, unk4, unk5,), p6))
                            }
                        }
                    }
                }
            }
        }
}

/// The bytes of fields `servers`, `unk1`, `unk2`, `endpoints`, `unk4`, `unk5` of [`ServerList`].
#[verifier::opaque]
pub open spec fn ser_server_list_part0(v: ServerListView) -> Seq<u8> {
    (((((RVec::<ServerDesc>::spec_ser(v.servers)) + (RVec::<U16>::spec_ser(v.unk1))) + (RVec::<U16>::spec_ser(v.unk2))) + (RVec::<EndpointDesc>::spec_ser(v.endpoints))) + (U32::spec_ser(v.unk4))) + (RBool::spec_ser(v.unk5))
}

#[verifier::opaque]
pub open spec fn wf_server_list_part0(v: ServerListView) -> bool {
    RVec::<ServerDesc>::spec_wf(v.servers) && RVec::<U16>::spec_wf(v.unk1) && RVec::<U16>::spec_wf(v.unk2) && RVec::<EndpointDesc>::spec_wf(v.endpoints) && U32::spec_wf(v.unk4) && RBool::spec_wf(v.unk5)
}

#[verifier::spinoff_prover]
#[verifier::rlimit(100)]
proof fn lemma_server_list_part0(v: ServerListView, s: Seq<u8>, p: int)
    requires
        wf_server_list_part0(v),
        0 <= p,
        p + ser_server_list_part0(v).len() <= s.len(),
        s.subrange(p, p + ser_server_list_part0(v).len()) == ser_server_list_part0(v),
    ensures
        spec_server_list_part0(s, p) == Ok::<((Seq<ServerDescView>, Seq<U16>, Seq<U16>, Seq<EndpointDescView>, U32, RBool,), int), BinError>(((v.servers, v.unk1, v.unk2, v.endpoints, v.unk4, v.unk5,), p + ser_server_list_part0(v).len())),
{
    reveal(spec_server_list_part0);
    reveal(ser_server_list_part0);
    reveal(wf_server_list_part0);
        let b0 = RVec::<ServerDesc>::spec_ser(v.servers);
        let b1 = RVec::<U16>::spec_ser(v.unk1);
        let b2 = RVec::<U16>::spec_ser(v.unk2);
        let b3 = RVec::<EndpointDesc>::spec_ser(v.endpoints);
        let b4 = U32::spec_ser(v.unk4);
        let b5 = RBool::spec_ser(v.unk5);
        let a0 = b0;
        let a1 = a0 + b1;
        let a2 = a1 + b2;
        let a3 = a2 + b3;
        let a4 = a3 + b4;
        let a5 = a4 + b5;
        lemma_subrange_prefix(s, p, a4, b5);
        lemma_subrange_prefix(s, p, a3, b4);
        lemma_subrange_prefix(s, p, a2, b3);
        lemma_subrange_prefix(s, p, a1, b2);
        lemma_subrange_prefix(s, p, a0, b1);
        RVec::<ServerDesc>::lemma_roundtrip(v.servers, s, p);
        RVec::<U16>::lemma_roundtrip(v.unk1, s, p + a0.len());
        RVec::<U16>::lemma_roundtrip(v.unk2, s, p + a1.len());
        RVec::<EndpointDesc>::lemma_roundtrip(v.endpoints, s, p + a2.len());
        U32::lemma_roundtrip(v.unk4, s, p + a3.len());
        RBool::lemma_roundtrip(v.unk5, s, p + a4.len());
}

fn parse_server_list_part0(data: &[u8], p: usize) -> (r: Result<((RVec<ServerDesc>, RVec<U16>, RVec<U16>, RVec<EndpointDesc>, U32, RBool,), usize), BinError>)
    requires
        p <= data@.len(),
    ensures
        r matches Ok((_, q)) ==> p <= q <= data@.len(),
        match r {
            Ok((x, q)) => spec_server_list_part0(data@, p as int) == Ok::<((Seq<ServerDescView>, Seq<U16>, Seq<U16>, Seq<EndpointDescView>, U32, RBool,), int), BinError>(((x.0@, x.1@, x.2@, x.3@, x.4@, x.5@,), q as int)),
            Err(e) => spec_server_list_part0(data@, p as int) == Err::<((Seq<ServerDescView>, Seq<U16>, Seq<U16>, Seq<EndpointDescView>, U32, RBool,), int), BinError>(e),
        },
{
    reveal(spec_server_list_part0);
        let (servers, p1) = RVec::<ServerDesc>::parse(data, p)?;
        let (unk1, p2) = RVec::<U16>::parse(data, p1)?;
        let (unk2, p3) = RVec::<U16>::parse(data, p2)?;
        let (endpoints, p4) = RVec::<EndpointDesc>::parse(data, p3)?;
        let (unk4, p5) = U32::parse(data, p4)?;
        let (unk5, p6) = RBool::parse(data, p5)?;
        Ok(((servers, unk1, unk2, endpoints, unk4, unk5,), p6))
}

impl ServerList {
    fn write_server_list_part0(&self, out: &mut Vec<u8>)
        ensures
            final(out)@ == old(out)@ + ser_server_list_part0(self@),
    {
        reveal(ser_server_list_part0);
            self.servers.write(out);
            self.unk1.write(out);
            self.unk2.write(out);
            self.endpoints.write(out);
            self.unk4.write(out);
            self.unk5.write(out);
        assert(final(out)@ =~= old(out)@ + ser_server_list_part0(self@));
    }
}

/// Reading fields `unk6`, `unixtime`, `unk8`, `mb_selected_server_id`, `unk10`, `unk11` of [`ServerList`].
#[verifier::opaque]
pub open spec fn spec_server_list_part1(s: Seq<u8>, p: int) -> SpecRead<(U32, U64, U32, U16, U64, Seq<u8>,)> {
        match U32::spec_parse(s, p) {
            Err(e) => Err(e),
            Ok((unk6, p1)) => 
            match U64::spec_parse(s, p1) {
                Err(e) => Err(e),
                Ok((unixtime, p2)) => 
                match U32::spec_parse(s, p2) {
                    Err(e) => Err(e),
                    Ok((unk8, p3)) => 
                    match U16::spec_parse(s, p3) {
                        Err(e) => Err(e),
                        Ok((mb_selected_server_id, p4)) => 
                        match U64::spec_parse(s, p4) {
                            Err(e) => Err(e),
                            Ok((unk10, p5)) => 
                            match RBytes::spec_parse(s, p5) {
                                Err(e) => Err(e),
                                Ok((unk11, p6)) => 
                                Ok(((unk6, unixtime, unk8, mb_selected_server_id, unk10, unk11,), p6))
                            }
                        }
                    }
                }
            }
        }
}

/// The bytes of fields `unk6`, `unixtime`, `unk8`, `mb_selected_server_id`, `unk10`, `unk11` of [`ServerList`].
#[verifier::opaque]
pub open spec fn ser_server_list_part1(v: ServerListView) -> Seq<u8> {
    (((((U32::spec_ser(v.unk6)) + (U64::spec_ser(v.unixtime))) + (U32::spec_ser(v.unk8))) + (U16::spec_ser(v.mb_selected_server_id))) + (U64::spec_ser(v.unk10))) + (RBytes::spec_ser(v.unk11))
}

#[verifier::opaque]
pub open spec fn wf_server_list_part1(v: ServerListView) -> bool {
    U32::spec_wf(v.unk6) && U64::spec_wf(v.unixtime) && U32::spec_wf(v.unk8) && U16::spec_wf(v.mb_selected_server_id) && U64::spec_wf(v.unk10) && RBytes::spec_wf(v.unk11)
}

#[verifier::spinoff_prover]
#[verifier::rlimit(100)]
proof fn lemma_server_list_part1(v: ServerListView, s: Seq<u8>, p: int)
    requires
        wf_server_list_part1(v),
        0 <= p,
        p + ser_server_list_part1(v).len() <= s.len(),
        s.subrange(p, p + ser_server_list_part1(v).len()) == ser_server_list_part1(v),
    ensures
        spec_server_list_part1(s, p) == Ok::<((U32, U64, U32, U16, U64, Seq<u8>,), int), BinError>(((v.unk6, v.unixtime, v.unk8, v.mb_selected_server_id, v.unk10, v.unk11,), p + ser_server_list_part1(v).len())),
{
    reveal(spec_server_list_part1);
    reveal(ser_server_list_part1);
    reveal(wf_server_list_part1);
        let b0 = U32::spec_ser(v.unk6);
        let b1 = U64::spec_ser(v.unixtime);
        let b2 = U32::spec_ser(v.unk8);
        let b3 = U16::spec_ser(v.mb_selected_server_id);
        let b4 = U64::spec_ser(v.unk10);
        let b5 = RBytes::spec_ser(v.unk11);
        let a0 = b0;
        let a1 = a0 + b1;
        let a2 = a1 + b2;
        let a3 = a2 + b3;
        let a4 = a3 + b4;
        let a5 = a4 + b5;
        lemma_subrange_prefix(s, p, a4, b5);
        lemma_subrange_prefix(s, p, a3, b4);
        lemma_subrange_prefix(s, p, a2, b3);
        lemma_subrange_prefix(s, p, a1, b2);
        lemma_subrange_prefix(s, p, a0, b1);
        U32::lemma_roundtrip(v.unk6, s, p);
        U64::lemma_roundtrip(v.unixtime, s, p + a0.len());
        U32::lemma_roundtrip(v.unk8, s, p + a1.len());
        U16::lemma_roundtrip(v.mb_selected_server_id, s, p + a2.len());
        U64::lemma_roundtrip(v.unk10, s, p + a3.len());
        RBytes::lemma_roundtrip(v.unk11, s, p + a4.len());
}

fn parse_server_list_part1(data: &[u8], p: usize) -> (r: Result<((U32, U64, U32, U16, U64, RBytes,), usize), BinError>)
    requires
        p <= data@.len(),
    ensures
        r matches Ok((_, q)) ==> p <= q <= data@.len(),
        match r {
            Ok((x, q)) => spec_server_list_part1(data@, p as int) == Ok::<((U32, U64, U32, U16, U64, Seq<u8>,), int), BinError>(((x.0@, x.1@, x.2@, x.3@, x.4@, x.5@,), q as int)),
            Err(e) => spec_server_list_part1(data@, p as int) == Err::<((U32, U64, U32, U16, U64, Seq<u8>,), int), BinError>(e),
        },
{
    reveal(spec_server_list_part1);
        let (unk6, p1) = U32::parse(data, p)?;
        let (unixtime, p2) = U64::parse(data, p1)?;
        let (unk8, p3) = U32::parse(data, p2)?;
        let (mb_selected_server_id, p4) = U16::parse(data, p3)?;
        let (unk10, p5) = U64::parse(data, p4)?;
        let (unk11, p6) = RBytes::parse(data, p5)?;
        Ok(((unk6, unixtime, unk8, mb_selected_server_id, unk10, unk11,), p6))
}

impl ServerList {
    fn write_server_list_part1(&self, out: &mut Vec<u8>)
        ensures
            final(out)@ == old(out)@ + ser_server_list_part1(self@),
    {
        reveal(ser_server_list_part1);
            self.unk6.write(out);
            self.unixtime.write(out);
            self.unk8.write(out);
            self.mb_selected_server_id.write(out);
            self.unk10.write(out);
            self.unk11.write(out);
        assert(final(out)@ =~= old(out)@ + ser_server_list_part1(self@));
    }
}

/// Reading fields `unk12`, `xkey0`, `xkey1`, `rdtsc_echo`, `unk16` of [`ServerList`].
#[verifier::opaque]
pub open spec fn spec_server_list_part2(s: Seq<u8>, p: int) -> SpecRead<(U32, U32, U64, U64, Seq<char>,)> {
        match U32::spec_parse(s, p) {
            Err(e) => Err(e),
            Ok((unk12, p1)) => 
            match U32::spec_parse(s, p1) {
                Err(e) => Err(e),
                Ok((xkey0, p2)) => 
                match U64::spec_parse(s, p2) {
                    Err(e) => Err(e),
                    Ok((xkey1, p3)) => 
                    match U64::spec_parse(s, p3) {
                        Err(e) => Err(e),
                        Ok((rdtsc_echo, p4)) => 
                        match RString::spec_parse(s, p4) {
                            Err(e) => Err(e),
                            Ok((unk16, p5)) => 
                            Ok(((unk12, xkey0, xkey1, rdtsc_echo, unk16,), p5))
                        }
                    }
                }
            }
        }
}

/// The bytes of fields `unk12`, `xkey0`, `xkey1`, `rdtsc_echo`, `unk16` of [`ServerList`].
#[verifier::opaque]
pub open spec fn ser_server_list_part2(v: ServerListView) -> Seq<u8> {
    ((((U32::spec_ser(v.unk12)) + (U32::spec_ser(v.xkey0))) + (U64::spec_ser(v.xkey1))) + (U64::spec_ser(v.rdtsc_echo))) + (RString::spec_ser(v.unk16))
}

#[verifier::opaque]
pub open spec fn wf_server_list_part2(v: ServerListView) -> bool {
    U32::spec_wf(v.unk12) && U32::spec_wf(v.xkey0) && U64::spec_wf(v.xkey1) && U64::spec_wf(v.rdtsc_echo) && RString::spec_wf(v.unk16)
}

#[verifier::spinoff_prover]
#[verifier::rlimit(100)]
proof fn lemma_server_list_part2(v: ServerListView, s: Seq<u8>, p: int)
    requires
        wf_server_list_part2(v),
        0 <= p,
        p + ser_server_list_part2(v).len() <= s.len(),
        s.subrange(p, p + ser_server_list_part2(v).len()) == ser_server_list_part2(v),
    ensures
        spec_server_list_part2(s, p) == Ok::<((U32, U32, U64, U64, Seq<char>,), int), BinError>(((v.unk12, v.xkey0, v.xkey1, v.rdtsc_echo, v.unk16,), p + ser_server_list_part2(v).len())),
{
    reveal(spec_server_list_part2);
    reveal(ser_server_list_part2);
    reveal(wf_server_list_part2);
        let b0 = U32::spec_ser(v.unk12);
        let b1 = U32::spec_ser(v.xkey0);
        let b2 = U64::spec_ser(v.xkey1);
        let b3 = U64::spec_ser(v.rdtsc_echo);
        let b4 = RString::spec_ser(v.unk16);
        let a0 = b0;
        let a1 = a0 + b1;
        let a2 = a1 + b2;
        let a3 = a2 + b3;
        let a4 = a3 + b4;
        lemma_subrange_prefix(s, p, a3, b4);
        lemma_subrange_prefix(s, p, a2, b3);
        lemma_subrange_prefix(s, p, a1, b2);
        lemma_subrange_prefix(s, p, a0, b1);
        U32::lemma_roundtrip(v.unk12, s, p);
        U32::lemma_roundtrip(v.xkey0, s, p + a0.len());
        U64::lemma_roundtrip(v.xkey1, s, p + a1.len());
        U64::lemma_roundtrip(v.rdtsc_echo, s, p + a2.len());
        RString::lemma_roundtrip(v.unk16, s, p + a3.len());
}

fn parse_server_list_part2(data: &[u8], p: usize) -> (r: Result<((U32, U32, U64, U64, RString,), usize), BinError>)
    requires
        p <= data@.len(),
    ensures
        r matches Ok((_, q)) ==> p <= q <= data@.len(),
        match r {
            Ok((x, q)) => spec_server_list_part2(data@, p as int) == Ok::<((U32, U32, U64, U64, Seq<char>,), int), BinError>(((x.0@, x.1@, x.2@, x.3@, x.4@,), q as int)),
            Err(e) => spec_server_list_part2(data@, p as int) == Err::<((U32, U32, U64, U64, Seq<char>,), int), BinError>(e),
        },
{
    reveal(spec_server_list_part2);
        let (unk12, p1) = U32::parse(data, p)?;
        let (xkey0, p2) = U32::parse(data, p1)?;
        let (xkey1, p3) = U64::parse(data, p2)?;
        let (rdtsc_echo, p4) = U64::parse(data, p3)?;
        let (unk16, p5) = RString::parse(data, p4)?;
        Ok(((unk12, xkey0, xkey1, rdtsc_echo, unk16,), p5))
}

impl ServerList {
    fn write_server_list_part2(&self, out: &mut Vec<u8>)
        ensures
            final(out)@ == old(out)@ + ser_server_list_part2(self@),
    {
        reveal(ser_server_list_part2);
            self.unk12.write(out);
            self.xkey0.write(out);
            self.xkey1.write(out);
            self.rdtsc_echo.write(out);
            self.unk16.write(out);
        assert(final(out)@ =~= old(out)@ + ser_server_list_part2(self@));
    }
}

impl Wire for ServerList {
    open spec fn spec_parse(s: Seq<u8>, p: int) -> SpecRead<ServerListView> {
        match spec_server_list_part0(s, p) {
            Err(e) => Err(e),
            Ok((t0, q0)) => 
            match spec_server_list_part1(s, q0) {
                Err(e) => Err(e),
                Ok((t1, q1)) => 
                match spec_server_list_part2(s, q1) {
                    Err(e) => Err(e),
                    Ok((t2, q2)) => 
                    Ok((ServerListView { servers: t0.0, unk1: t0.1, unk2: t0.2, endpoints: t0.3, unk4: t0.4, unk5: t0.5, unk6: t1.0, unixtime: t1.1, unk8: t1.2, mb_selected_server_id: t1.3, unk10: t1.4, unk11: t1.5, unk12: t2.0, xkey0: t2.1, xkey1: t2.2, rdtsc_echo: t2.3, unk16: t2.4 }, q2))
                }
            }
        }
    }

    open spec fn spec_ser(v: ServerListView) -> Seq<u8> {
        ((ser_server_list_part0(v)) + (ser_server_list_part1(v))) + (ser_server_list_part2(v))
    }

    open spec fn spec_wf(v: ServerListView) -> bool {
        wf_server_list_part0(v) && wf_server_list_part1(v) && wf_server_list_part2(v)
    }

    fn parse(data: &[u8], p: usize) -> (r: Result<(Self, usize), BinError>) {
        let (t0, q0) = parse_server_list_part0(data, p)?;
        let (t1, q1) = parse_server_list_part1(data, q0)?;
        let (t2, q2) = parse_server_list_part2(data, q1)?;
        Ok((ServerList { servers: t0.0, unk1: t0.1, unk2: t0.2, endpoints: t0.3, unk4: t0.4, unk5: t0.5, unk6: t1.0, unixtime: t1.1, unk8: t1.2, mb_selected_server_id: t1.3, unk10: t1.4, unk11: t1.5, unk12: t2.0, xkey0: t2.1, xkey1: t2.2, rdtsc_echo: t2.3, unk16: t2.4 }, q2))
    }

    fn write(&self, out: &mut Vec<u8>) {
        self.write_server_list_part0(out);
        self.write_server_list_part1(out);
        self.write_server_list_part2(out);
        assert(final(out)@ =~= old(out)@ + Self::spec_ser(self@));
    }

    proof fn lemma_roundtrip(v: ServerListView, s: Seq<u8>, p: int) {
        let b0 = ser_server_list_part0(v);
        let b1 = ser_server_list_part1(v);
        let b2 = ser_server_list_part2(v);
        let a0 = b0;
        let a1 = a0 + b1;
        let a2 = a1 + b2;
        lemma_subrange_prefix(s, p, a1, b2);
        lemma_subrange_prefix(s, p, a0, b1);
        lemma_server_list_part0(v, s, p);
        lemma_server_list_part1(v, s, p + a0.len());
        lemma_server_list_part2(v, s, p + a1.len());
    }
}


#[derive(Debug, Clone, PartialEq, Eq)]
pub struct EndpointDesc {
    pub server_id: U16,
    /// IPv4 address as a number: a.b.c.d is (a << 24) | (b << 16) | (c << 8) | d.
    pub ip: U32,
    pub port: U16,
    pub unk3: U16,
}

/// Mathematical form of [`EndpointDesc`].
pub struct EndpointDescView {
    pub server_id: U16,
    pub ip: U32,
    pub port: U16,
    pub unk3: U16,
}

impl View for EndpointDesc {
    type V = EndpointDescView;

    open spec fn view(&self) -> EndpointDescView {
        EndpointDescView {
            server_id: self.server_id@,
            ip: self.ip@,
            port: self.port@,
            unk3: self.unk3@,
        }
    }
}

impl Wire for EndpointDesc {
    open spec fn spec_parse(s: Seq<u8>, p: int) -> SpecRead<EndpointDescView> {
        match U16::spec_parse(s, p) {
            Err(e) => Err(e),
            Ok((server_id, p1)) => 
            match U32::spec_parse(s, p1) {
                Err(e) => Err(e),
                Ok((ip, p2)) => 
                match U16::spec_parse(s, p2) {
                    Err(e) => Err(e),
                    Ok((port, p3)) => 
                    match U16::spec_parse(s, p3) {
                        Err(e) => Err(e),
                        Ok((unk3, p4)) => 
                        Ok((EndpointDescView { server_id, ip, port, unk3 }, p4))
                    }
                }
            }
        }
    }

    open spec fn spec_ser(v: EndpointDescView) -> Seq<u8> {
        (((U16::spec_ser(v.server_id)) + (U32::spec_ser(v.ip))) + (U16::spec_ser(v.port))) + (U16::spec_ser(v.unk3))
    }

    open spec fn spec_wf(v: EndpointDescView) -> bool {
        U16::spec_wf(v.server_id) && U32::spec_wf(v.ip) && U16::spec_wf(v.port) && U16::spec_wf(v.unk3)
    }

    fn parse(data: &[u8], p: usize) -> (r: Result<(Self, usize), BinError>) {
        let (server_id, p1) = U16::parse(data, p)?;
        let (ip, p2) = U32::parse(data, p1)?;
        let (port, p3) = U16::parse(data, p2)?;
        let (unk3, p4) = U16::parse(data, p3)?;
        Ok((EndpointDesc { server_id, ip, port, unk3 }, p4))
    }

    fn write(&self, out: &mut Vec<u8>) {
        self.server_id.write(out);
        self.ip.write(out);
        self.port.write(out);
        self.unk3.write(out);
        assert(final(out)@ =~= old(out)@ + Self::spec_ser(self@));
    }

    #[verifier::spinoff_prover]
    #[verifier::rlimit(50)]
    proof fn lemma_roundtrip(v: EndpointDescView, s: Seq<u8>, p: int) {
        let b0 = U16::spec_ser(v.server_id);
        let b1 = U32::spec_ser(v.ip);
        let b2 = U16::spec_ser(v.port);
        let b3 = U16::spec_ser(v.unk3);
        let a0 = b0;
        let a1 = a0 + b1;
        let a2 = a1 + b2;
        let a3 = a2 + b3;
        lemma_subrange_prefix(s, p, a2, b3);
        lemma_subrange_prefix(s, p, a1, b2);
        lemma_subrange_prefix(s, p, a0, b1);
        U16::lemma_roundtrip(v.server_id, s, p);
        U32::lemma_roundtrip(v.ip, s, p + a0.len());
        U16::lemma_roundtrip(v.port, s, p + a1.len());
        U16::lemma_roundtrip(v.unk3, s, p + a2.len());
    }
}


#[derive(Debug, Clone, PartialEq, Eq)]
pub struct ServerDesc {
    pub id: U16,
    pub name: RString,
    pub unk1: U32,
}

/// Mathematical form of [`ServerDesc`].
pub struct ServerDescView {
    pub id: U16,
    pub name: Seq<char>,
    pub unk1: U32,
}

impl View for ServerDesc {
    type V = ServerDescView;

    open spec fn view(&self) -> ServerDescView {
        ServerDescView {
            id: self.id@,
            name: self.name@,
            unk1: self.unk1@,
        }
    }
}

impl Wire for ServerDesc {
    open spec fn spec_parse(s: Seq<u8>, p: int) -> SpecRead<ServerDescView> {
        match U16::spec_parse(s, p) {
            Err(e) => Err(e),
            Ok((id, p1)) => 
            match RString::spec_parse(s, p1) {
                Err(e) => Err(e),
                Ok((name, p2)) => 
                match U32::spec_parse(s, p2) {
                    Err(e) => Err(e),
                    Ok((unk1, p3)) => 
                    Ok((ServerDescView { id, name, unk1 }, p3))
                }
            }
        }
    }

    open spec fn spec_ser(v: ServerDescView) -> Seq<u8> {
        ((U16::spec_ser(v.id)) + (RString::spec_ser(v.name))) + (U32::spec_ser(v.unk1))
    }

    open spec fn spec_wf(v: ServerDescView) -> bool {
        U16::spec_wf(v.id) && RString::spec_wf(v.name) && U32::spec_wf(v.unk1)
    }

    fn parse(data: &[u8], p: usize) -> (r: Result<(Self, usize), BinError>) {
        let (id, p1) = U16::parse(data, p)?;
        let (name, p2) = RString::parse(data, p1)?;
        let (unk1, p3) = U32::parse(data, p2)?;
        Ok((ServerDesc { id, name, unk1 }, p3))
    }

    fn write(&self, out: &mut Vec<u8>) {
        self.id.write(out);
        self.name.write(out);
        self.unk1.write(out);
        assert(final(out)@ =~= old(out)@ + Self::spec_ser(self@));
    }

    #[verifier::spinoff_prover]
    #[verifier::rlimit(50)]
    proof fn lemma_roundtrip(v: ServerDescView, s: Seq<u8>, p: int) {
        let b0 = U16::spec_ser(v.id);
        let b1 = RString::spec_ser(v.name);
        let b2 = U32::spec_ser(v.unk1);
        let a0 = b0;
        let a1 = a0 + b1;
        let a2 = a1 + b2;
        lemma_subrange_prefix(s, p, a1, b2);
        lemma_subrange_prefix(s, p, a0, b1);
        U16::lemma_roundtrip(v.id, s, p);
        RString::lemma_roundtrip(v.name, s, p + a0.len());
        U32::lemma_roundtrip(v.unk1, s, p + a1.len());
    }
}


#[derive(Debug, Clone, PartialEq, Eq)]
pub struct Packet04 {
    pub unk0: U16,
    pub unk1: U16,
}

/// Mathematical form of [`Packet04`].
pub struct Packet04View {
    pub unk0: U16,
    pub unk1: U16,
}

impl View for Packet04 {
    type V = Packet04View;

    open spec fn view(&self) -> Packet04View {
        Packet04View {
            unk0: self.unk0@,
            unk1: self.unk1@,
        }
    }
}

impl Wire for Packet04 {
    open spec fn spec_parse(s: Seq<u8>, p: int) -> SpecRead<Packet04View> {
        match U16::spec_parse(s, p) {
            Err(e) => Err(e),
            Ok((unk0, p1)) => 
            match U16::spec_parse(s, p1) {
                Err(e) => Err(e),
                Ok((unk1, p2)) => 
                Ok((Packet04View { unk0, unk1 }, p2))
            }
        }
    }

    open spec fn spec_ser(v: Packet04View) -> Seq<u8> {
        (U16::spec_ser(v.unk0)) + (U16::spec_ser(v.unk1))
    }

    open spec fn spec_wf(v: Packet04View) -> bool {
        U16::spec_wf(v.unk0) && U16::spec_wf(v.unk1)
    }

    fn parse(data: &[u8], p: usize) -> (r: Result<(Self, usize), BinError>) {
        let (unk0, p1) = U16::parse(data, p)?;
        let (unk1, p2) = U16::parse(data, p1)?;
        Ok((Packet04 { unk0, unk1 }, p2))
    }

    fn write(&self, out: &mut Vec<u8>) {
        self.unk0.write(out);
        self.unk1.write(out);
        assert(final(out)@ =~= old(out)@ + Self::spec_ser(self@));
    }

    #[verifier::spinoff_prover]
    #[verifier::rlimit(50)]
    proof fn lemma_roundtrip(v: Packet04View, s: Seq<u8>, p: int) {
        let b0 = U16::spec_ser(v.unk0);
        let b1 = U16::spec_ser(v.unk1);
        let a0 = b0;
        let a1 = a0 + b1;
        lemma_subrange_prefix(s, p, a0, b1);
        U16::lemma_roundtrip(v.unk0, s, p);
        U16::lemma_roundtrip(v.unk1, s, p + a0.len());
    }
}


#[derive(Debug, Clone, PartialEq, Eq)]
pub struct Connect {
    /// time + 354
    pub pc_millis_shift: U32,
    /// Just time
    pub pc_millis: U32,
}

/// Mathematical form of [`Connect`].
pub struct ConnectView {
    pub pc_millis_shift: U32,
    pub pc_millis: U32,
}

impl View for Connect {
    type V = ConnectView;

    open spec fn view(&self) -> ConnectView {
        ConnectView {
            pc_millis_shift: self.pc_millis_shift@,
            pc_millis: self.pc_millis@,
        }
    }
}

impl Wire for Connect {
    open spec fn spec_parse(s: Seq<u8>, p: int) -> SpecRead<ConnectView> {
        match U32::spec_parse(s, p) {
            Err(e) => Err(e),
            Ok((pc_millis_shift, p1)) => 
            match U32::spec_parse(s, p1) {
                Err(e) => Err(e),
                Ok((pc_millis, p2)) => 
                Ok((ConnectView { pc_millis_shift, pc_millis }, p2))
            }
        }
    }

    open spec fn spec_ser(v: ConnectView) -> Seq<u8> {
        (U32::spec_ser(v.pc_millis_shift)) + (U32::spec_ser(v.pc_millis))
    }

    open spec fn spec_wf(v: ConnectView) -> bool {
        U32::spec_wf(v.pc_millis_shift) && U32::spec_wf(v.pc_millis)
    }

    fn parse(data: &[u8], p: usize) -> (r: Result<(Self, usize), BinError>) {
        let (pc_millis_shift, p1) = U32::parse(data, p)?;
        let (pc_millis, p2) = U32::parse(data, p1)?;
        Ok((Connect { pc_millis_shift, pc_millis }, p2))
    }

    fn write(&self, out: &mut Vec<u8>) {
        self.pc_millis_shift.write(out);
        self.pc_millis.write(out);
        assert(final(out)@ =~= old(out)@ + Self::spec_ser(self@));
    }

    #[verifier::spinoff_prover]
    #[verifier::rlimit(50)]
    proof fn lemma_roundtrip(v: ConnectView, s: Seq<u8>, p: int) {
        let b0 = U32::spec_ser(v.pc_millis_shift);
        let b1 = U32::spec_ser(v.pc_millis);
        let a0 = b0;
        let a1 = a0 + b1;
        lemma_subrange_prefix(s, p, a0, b1);
        U32::lemma_roundtrip(v.pc_millis_shift, s, p);
        U32::lemma_roundtrip(v.pc_millis, s, p + a0.len());
    }
}


#[derive(Debug, Clone, PartialEq, Eq)]
pub struct TimeSync {
    pub unixtime: U64,
}

/// Mathematical form of [`TimeSync`].
pub struct TimeSyncView {
    pub unixtime: U64,
}

impl View for TimeSync {
    type V = TimeSyncView;

    open spec fn view(&self) -> TimeSyncView {
        TimeSyncView {
            unixtime: self.unixtime@,
        }
    }
}

impl Wire for TimeSync {
    open spec fn spec_parse(s: Seq<u8>, p: int) -> SpecRead<TimeSyncView> {
        match U64::spec_parse(s, p) {
            Err(e) => Err(e),
            Ok((unixtime, p1)) => 
            Ok((TimeSyncView { unixtime }, p1))
        }
    }

    open spec fn spec_ser(v: TimeSyncView) -> Seq<u8> {
        U64::spec_ser(v.unixtime)
    }

    open spec fn spec_wf(v: TimeSyncView) -> bool {
        U64::spec_wf(v.unixtime)
    }

    fn parse(data: &[u8], p: usize) -> (r: Result<(Self, usize), BinError>) {
        let (unixtime, p1) = U64::parse(data, p)?;
        Ok((TimeSync { unixtime }, p1))
    }

    fn write(&self, out: &mut Vec<u8>) {
        self.unixtime.write(out);
        assert(final(out)@ =~= old(out)@ + Self::spec_ser(self@));
    }

    #[verifier::spinoff_prover]
    #[verifier::rlimit(50)]
    proof fn lemma_roundtrip(v: TimeSyncView, s: Seq<u8>, p: int) {
        let b0 = U64::spec_ser(v.unixtime);
        let a0 = b0;
        U64::lemma_roundtrip(v.unixtime, s, p);
    }
}


#[derive(Debug, Clone, PartialEq, Eq)]
pub struct TimeSyncResponse {
    pub xkey0: U32,
    pub rdtsc: U64,
    pub xkey1: U64,
}

/// Mathematical form of [`TimeSyncResponse`].
pub struct TimeSyncResponseView {
    pub xkey0: U32,
    pub rdtsc: U64,
    pub xkey1: U64,
}

impl View for TimeSyncResponse {
    type V = TimeSyncResponseView;

    open spec fn view(&self) -> TimeSyncResponseView {
        TimeSyncResponseView {
            xkey0: self.xkey0@,
            rdtsc: self.rdtsc@,
            xkey1: self.xkey1@,
        }
    }
}

impl Wire for TimeSyncResponse {
    open spec fn spec_parse(s: Seq<u8>, p: int) -> SpecRead<TimeSyncResponseView> {
        match U32::spec_parse(s, p) {
            Err(e) => Err(e),
            Ok((xkey0, p1)) => 
            match U64::spec_parse(s, p1) {
                Err(e) => Err(e),
                Ok((rdtsc, p2)) => 
                match U64::spec_parse(s, p2) {
                    Err(e) => Err(e),
                    Ok((xkey1, p3)) => 
                    Ok((TimeSyncResponseView { xkey0, rdtsc, xkey1 }, p3))
                }
            }
        }
    }

    open spec fn spec_ser(v: TimeSyncResponseView) -> Seq<u8> {
        ((U32::spec_ser(v.xkey0)) + (U64::spec_ser(v.rdtsc))) + (U64::spec_ser(v.xkey1))
    }

    open spec fn spec_wf(v: TimeSyncResponseView) -> bool {
        U32::spec_wf(v.xkey0) && U64::spec_wf(v.rdtsc) && U64::spec_wf(v.xkey1)
    }

    fn parse(data: &[u8], p: usize) -> (r: Result<(Self, usize), BinError>) {
        let (xkey0, p1) = U32::parse(data, p)?;
        let (rdtsc, p2) = U64::parse(data, p1)?;
        let (xkey1, p3) = U64::parse(data, p2)?;
        Ok((TimeSyncResponse { xkey0, rdtsc, xkey1 }, p3))
    }

    fn write(&self, out: &mut Vec<u8>) {
        self.xkey0.write(out);
        self.rdtsc.write(out);
        self.xkey1.write(out);
        assert(final(out)@ =~= old(out)@ + Self::spec_ser(self@));
    }

    #[verifier::spinoff_prover]
    #[verifier::rlimit(50)]
    proof fn lemma_roundtrip(v: TimeSyncResponseView, s: Seq<u8>, p: int) {
        let b0 = U32::spec_ser(v.xkey0);
        let b1 = U64::spec_ser(v.rdtsc);
        let b2 = U64::spec_ser(v.xkey1);
        let a0 = b0;
        let a1 = a0 + b1;
        let a2 = a1 + b2;
        lemma_subrange_prefix(s, p, a1, b2);
        lemma_subrange_prefix(s, p, a0, b1);
        U32::lemma_roundtrip(v.xkey0, s, p);
        U64::lemma_roundtrip(v.rdtsc, s, p + a0.len());
        U64::lemma_roundtrip(v.xkey1, s, p + a1.len());
    }
}


#[derive(Debug, Clone, PartialEq, Eq)]
pub struct CharList {
    pub xkey0: U32,
    /// Same as ServerList.unk10
    pub unk1: U64,
    pub unk2: U32,
    pub some_flags: U32,
    /// Global variable in client
    pub unk4: U32,
    pub rdtsc_echo: U64,
    pub unk5: RString,
    pub unk6: U32,
    pub chars: RVec<CharacterSlot>,
}

/// Mathematical form of [`CharList`].
pub struct CharListView {
    pub xkey0: U32,
    pub unk1: U64,
    pub unk2: U32,
    pub some_flags: U32,
    pub unk4: U32,
    pub rdtsc_echo: U64,
    pub unk5: Seq<char>,
    pub unk6: U32,
    pub chars: Seq<CharacterSlotView>,
}

impl View for CharList {
    type V = CharListView;

    open spec fn view(&self) -> CharListView {
        CharListView {
            xkey0: self.xkey0@,
            unk1: self.unk1@,
            unk2: self.unk2@,
            some_flags: self.some_flags@,
            unk4: self.unk4@,
            rdtsc_echo: self.rdtsc_echo@,
            unk5: self.unk5@,
            unk6: self.unk6@,
            chars: self.chars@,
        }
    }
}

impl Wire for CharList {
    open spec fn spec_parse(s: Seq<u8>, p: int) -> SpecRead<CharListView> {
        match U32::spec_parse(s, p) {
            Err(e) => Err(e),
            Ok((xkey0, p1)) => 
            match U64::spec_parse(s, p1) {
                Err(e) => Err(e),
                Ok((unk1, p2)) => 
                match U32::spec_parse(s, p2) {
                    Err(e) => Err(e),
                    Ok((unk2, p3)) => 
                    match U32::spec_parse(s, p3) {
                        Err(e) => Err(e),
                        Ok((some_flags, p4)) => 
                        match U32::spec_parse(s, p4) {
                            Err(e) => Err(e),
                            Ok((unk4, p5)) => 
                            match U64::spec_parse(s, p5) {
                                Err(e) => Err(e),
                                Ok((rdtsc_echo, p6)) => 
                                match RString::spec_parse(s, p6) {
                                    Err(e) => Err(e),
                                    Ok((unk5, p7)) => 
                                    match U32::spec_parse(s, p7) {
                                        Err(e) => Err(e),
                                        Ok((unk6, p8)) => 
                                        match RVec::<CharacterSlot>::spec_parse(s, p8) {
                                            Err(e) => Err(e),
                                            Ok((chars, p9)) => 
                                            Ok((CharListView { xkey0, unk1, unk2, some_flags, unk4, rdtsc_echo, unk5, unk6, chars }, p9))
                                        }
                                    }
                                }
                            }
                        }
                    }
                }
            }
        }
    }

    open spec fn spec_ser(v: CharListView) -> Seq<u8> {
        ((((((((U32::spec_ser(v.xkey0)) + (U64::spec_ser(v.unk1))) + (U32::spec_ser(v.unk2))) + (U32::spec_ser(v.some_flags))) + (U32::spec_ser(v.unk4))) + (U64::spec_ser(v.rdtsc_echo))) + (RString::spec_ser(v.unk5))) + (U32::spec_ser(v.unk6))) + (RVec::<CharacterSlot>::spec_ser(v.chars))
    }

    open spec fn spec_wf(v: CharListView) -> bool {
        U32::spec_wf(v.xkey0) && U64::spec_wf(v.unk1) && U32::spec_wf(v.unk2) && U32::spec_wf(v.some_flags) && U32::spec_wf(v.unk4) && U64::spec_wf(v.rdtsc_echo) && RString::spec_wf(v.unk5) && U32::spec_wf(v.unk6) && RVec::<CharacterSlot>::spec_wf(v.chars)
    }

    fn parse(data: &[u8], p: usize) -> (r: Result<(Self, usize), BinError>) {
        let (xkey0, p1) = U32::parse(data, p)?;
        let (unk1, p2) = U64::parse(data, p1)?;
        let (unk2, p3) = U32::parse(data, p2)?;
        let (some_flags, p4) = U32::parse(data, p3)?;
        let (unk4, p5) = U32::parse(data, p4)?;
        let (rdtsc_echo, p6) = U64::parse(data, p5)?;
        let (unk5, p7) = RString::parse(data, p6)?;
        let (unk6, p8) = U32::parse(data, p7)?;
        let (chars, p9) = RVec::<CharacterSlot>::parse(data, p8)?;
        Ok((CharList { xkey0, unk1, unk2, some_flags, unk4, rdtsc_echo, unk5, unk6, chars }, p9))
    }

    fn write(&self, out: &mut Vec<u8>) {
        self.xkey0.write(out);
        self.unk1.write(out);
        self.unk2.write(out);
        self.some_flags.write(out);
        self.unk4.write(out);
        self.rdtsc_echo.write(out);
        self.unk5.write(out);
        self.unk6.write(out);
        self.chars.write(out);
        assert(final(out)@ =~= old(out)@ + Self::spec_ser(self@));
    }

    #[verifier::spinoff_prover]
    #[verifier::rlimit(50)]
    proof fn lemma_roundtrip(v: CharListView, s: Seq<u8>, p: int) {
        let b0 = U32::spec_ser(v.xkey0);
        let b1 = U64::spec_ser(v.unk1);
        let b2 = U32::spec_ser(v.unk2);
        let b3 = U32::spec_ser(v.some_flags);
        let b4 = U32::spec_ser(v.unk4);
        let b5 = U64::spec_ser(v.rdtsc_echo);
        let b6 = RString::spec_ser(v.unk5);
        let b7 = U32::spec_ser(v.unk6);
        let b8 = RVec::<CharacterSlot>::spec_ser(v.chars);
        let a0 = b0;
        let a1 = a0 + b1;
        let a2 = a1 + b2;
        let a3 = a2 + b3;
        let a4 = a3 + b4;
        let a5 = a4 + b5;
        let a6 = a5 + b6;
        let a7 = a6 + b7;
        let a8 = a7 + b8;
        lemma_subrange_prefix(s, p, a7, b8);
        lemma_subrange_prefix(s, p, a6, b7);
        lemma_subrange_prefix(s, p, a5, b6);
        lemma_subrange_prefix(s, p, a4, b5);
        lemma_subrange_prefix(s, p, a3, b4);
        lemma_subrange_prefix(s, p, a2, b3);
        lemma_subrange_prefix(s, p, a1, b2);
        lemma_subrange_prefix(s, p, a0, b1);
        U32::lemma_roundtrip(v.xkey0, s, p);
        U64::lemma_roundtrip(v.unk1, s, p + a0.len());
        U32::lemma_roundtrip(v.unk2, s, p + a1.len());
        U32::lemma_roundtrip(v.some_flags, s, p + a2.len());
        U32::lemma_roundtrip(v.unk4, s, p + a3.len());
        U64::lemma_roundtrip(v.rdtsc_echo, s, p + a4.len());
        RString::lemma_roundtrip(v.unk5, s, p + a5.len());
        U32::lemma_roundtrip(v.unk6, s, p + a6.len());
        RVec::<CharacterSlot>::lemma_roundtrip(v.chars, s, p + a7.len());
    }
}


#[derive(Debug, Clone, PartialEq, Eq)]
pub struct CharacterSlot {
    pub id: U32,
    /// Slot is empty if id is 0
    pub info: Option<CharacterInfo>,
}

/// Mathematical form of [`CharacterSlot`].
pub struct CharacterSlotView {
    pub id: U32,
    pub info: Option<CharacterInfoView>,
}

impl View for CharacterSlot {
    type V = CharacterSlotView;

    open spec fn view(&self) -> CharacterSlotView {
        CharacterSlotView {
            id: self.id@,
            info: opt_view(self.info),
        }
    }
}

impl Wire for CharacterSlot {
    open spec fn spec_parse(s: Seq<u8>, p: int) -> SpecRead<CharacterSlotView> {
        match U32::spec_parse(s, p) {
            Err(e) => Err(e),
            Ok((id, p1)) => 
            match (if id.0 != 0 { match CharacterInfo::spec_parse(s, p1) { Ok((x, q)) => Ok((Some(x), q)), Err(e) => Err(e) } } else { Ok((None, p1)) }) {
                Err(e) => Err(e),
                Ok((info, p2)) => 
                Ok((CharacterSlotView { id, info }, p2))
            }
        }
    }

    open spec fn spec_ser(v: CharacterSlotView) -> Seq<u8> {
        (U32::spec_ser(v.id)) + (match v.info { Some(x) => CharacterInfo::spec_ser(x), None => Seq::empty() })
    }

    open spec fn spec_wf(v: CharacterSlotView) -> bool {
        U32::spec_wf(v.id) && (v.info is Some <==> v.id.0 != 0) && (v.info matches Some(x) ==> CharacterInfo::spec_wf(x))
    }

    fn parse(data: &[u8], p: usize) -> (r: Result<(Self, usize), BinError>) {
        let (id, p1) = U32::parse(data, p)?;
        let (info, p2) = if id.0 != 0 {
            let (x, q) = CharacterInfo::parse(data, p1)?;
            (Some(x), q)
        } else {
            (None, p1)
        };
        Ok((CharacterSlot { id, info }, p2))
    }

    fn write(&self, out: &mut Vec<u8>) {
        self.id.write(out);
        if let Some(x) = &self.info {
            x.write(out);
        }
        assert(final(out)@ =~= old(out)@ + Self::spec_ser(self@));
    }

    #[verifier::spinoff_prover]
    #[verifier::rlimit(50)]
    proof fn lemma_roundtrip(v: CharacterSlotView, s: Seq<u8>, p: int) {
        let b0 = U32::spec_ser(v.id);
        let b1 = match v.info { Some(x) => CharacterInfo::spec_ser(x), None => Seq::empty() };
        let a0 = b0;
        let a1 = a0 + b1;
        lemma_subrange_prefix(s, p, a0, b1);
        U32::lemma_roundtrip(v.id, s, p);
        if let Some(x) = v.info { CharacterInfo::lemma_roundtrip(x, s, p + a0.len()); }
    }
}


#[derive(Debug, Clone, PartialEq, Eq)]
pub struct CharacterInfo {
    /// 1 - warrior
    /// 2 - mage
    /// 3 - archer
    /// 4 - thief
    pub class: U16,
    /// 0 - male
    /// 1 - female
    pub sex: RBool,
    pub level: U16,
    pub unk3: U32,
    pub hp: U32,
    pub mp: U32,
    pub location_id: U32,
    pub body: BodyParam,
    pub name: RString,
    pub unk9: U8,
    pub unk10: U64,
    pub equip: RVec<ItemDesc>,
}

/// Mathematical form of [`CharacterInfo`].
pub struct CharacterInfoView {
    pub class: U16,
    pub sex: RBool,
    pub level: U16,
    pub unk3: U32,
    pub hp: U32,
    pub mp: U32,
    pub location_id: U32,
    pub body: BodyParam,
    pub name: Seq<char>,
    pub unk9: U8,
    pub unk10: U64,
    pub equip: Seq<ItemDescView>,
}

impl View for CharacterInfo {
    type V = CharacterInfoView;

    open spec fn view(&self) -> CharacterInfoView {
        CharacterInfoView {
            class: self.class@,
            sex: self.sex@,
            level: self.level@,
            unk3: self.unk3@,
            hp: self.hp@,
            mp: self.mp@,
            location_id: self.location_id@,
            body: self.body@,
            name: self.name@,
            unk9: self.unk9@,
            unk10: self.unk10@,
            equip: self.equip@,
        }
    }
}

/// Reading fields `class`, `sex`, `level`, `unk3`, `hp`, `mp` of [`CharacterInfo`].
#[verifier::opaque]
pub open spec fn spec_character_info_part0(s: Seq<u8>, p: int) -> SpecRead<(U16, RBool, U16, U32, U32, U32,)> {
        match U16::spec_parse(s, p) {
            Err(e) => Err(e),
            Ok((class, p1)) => 
            match RBool::spec_parse(s, p1) {
                Err(e) => Err(e),
                Ok((sex, p2)) => 
                match U16::spec_parse(s, p2) {
                    Err(e) => Err(e),
                    Ok((level, p3)) => 
                    match U32::spec_parse(s, p3) {
                        Err(e) => Err(e),
                        Ok((unk3, p4)) => 
                        match U32::spec_parse(s, p4) {
                            Err(e) => Err(e),
                            Ok((hp, p5)) => 
                            match U32::spec_parse(s, p5) {
                                Err(e) => Err(e),
                                Ok((mp, p6)) => 
                                Ok(((class, sex, level, unk3, hp, mp,), p6))
                            }
                        }
                    }
                }
            }
        }
}

/// The bytes of fields `class`, `sex`, `level`, `unk3`, `hp`, `mp` of [`CharacterInfo`].
#[verifier::opaque]
pub open spec fn ser_character_info_part0(v: CharacterInfoView) -> Seq<u8> {
    (((((U16::spec_ser(v.class)) + (RBool::spec_ser(v.sex))) + (U16::spec_ser(v.level))) + (U32::spec_ser(v.unk3))) + (U32::spec_ser(v.hp))) + (U32::spec_ser(v.mp))
}

#[verifier::opaque]
pub open spec fn wf_character_info_part0(v: CharacterInfoView) -> bool {
    U16::spec_wf(v.class) && RBool::spec_wf(v.sex) && U16::spec_wf(v.level) && U32::spec_wf(v.unk3) && U32::spec_wf(v.hp) && U32::spec_wf(v.mp)
}

#[verifier::spinoff_prover]
#[verifier::rlimit(100)]
proof fn lemma_character_info_part0(v: CharacterInfoView, s: Seq<u8>, p: int)
    requires
        wf_character_info_part0(v),
        0 <= p,
        p + ser_character_info_part0(v).len() <= s.len(),
        s.subrange(p, p + ser_character_info_part0(v).len()) == ser_character_info_part0(v),
    ensures
        spec_character_info_part0(s, p) == Ok::<((U16, RBool, U16, U32, U32, U32,), int), BinError>(((v.class, v.sex, v.level, v.unk3, v.hp, v.mp,), p + ser_character_info_part0(v).len())),
{
    reveal(spec_character_info_part0);
    reveal(ser_character_info_part0);
    reveal(wf_character_info_part0);
        let b0 = U16::spec_ser(v.class);
        let b1 = RBool::spec_ser(v.sex);
        let b2 = U16::spec_ser(v.level);
        let b3 = U32::spec_ser(v.unk3);
        let b4 = U32::spec_ser(v.hp);
        let b5 = U32::spec_ser(v.mp);
        let a0 = b0;
        let a1 = a0 + b1;
        let a2 = a1 + b2;
        let a3 = a2 + b3;
        let a4 = a3 + b4;
        let a5 = a4 + b5;
        lemma_subrange_prefix(s, p, a4, b5);
        lemma_subrange_prefix(s, p, a3, b4);
        lemma_subrange_prefix(s, p, a2, b3);
        lemma_subrange_prefix(s, p, a1, b2);
        lemma_subrange_prefix(s, p, a0, b1);
        U16::lemma_roundtrip(v.class, s, p);
        RBool::lemma_roundtrip(v.sex, s, p + a0.len());
        U16::lemma_roundtrip(v.level, s, p + a1.len());
        U32::lemma_roundtrip(v.unk3, s, p + a2.len());
        U32::lemma_roundtrip(v.hp, s, p + a3.len());
        U32::lemma_roundtrip(v.mp, s, p + a4.len());
}

fn parse_character_info_part0(data: &[u8], p: usize) -> (r: Result<((U16, RBool, U16, U32, U32, U32,), usize), BinError>)
    requires
        p <= data@.len(),
    ensures
        r matches Ok((_, q)) ==> p <= q <= data@.len(),
        match r {
            Ok((x, q)) => spec_character_info_part0(data@, p as int) == Ok::<((U16, RBool, U16, U32, U32, U32,), int), BinError>(((x.0@, x.1@, x.2@, x.3@, x.4@, x.5@,), q as int)),
            Err(e) => spec_character_info_part0(data@, p as int) == Err::<((U16, RBool, U16, U32, U32, U32,), int), BinError>(e),
        },
{
    reveal(spec_character_info_part0);
        let (class, p1) = U16::parse(data, p)?;
        let (sex, p2) = RBool::parse(data, p1)?;
        let (level, p3) = U16::parse(data, p2)?;
        let (unk3, p4) = U32::parse(data, p3)?;
        let (hp, p5) = U32::parse(data, p4)?;
        let (mp, p6) = U32::parse(data, p5)?;
        Ok(((class, sex, level, unk3, hp, mp,), p6))
}

impl CharacterInfo {
    fn write_character_info_part0(&self, out: &mut Vec<u8>)
        ensures
            final(out)@ == old(out)@ + ser_character_info_part0(self@),
    {
        reveal(ser_character_info_part0);
            self.class.write(out);
            self.sex.write(out);
            self.level.write(out);
            self.unk3.write(out);
            self.hp.write(out);
            self.mp.write(out);
        assert(final(out)@ =~= old(out)@ + ser_character_info_part0(self@));
    }
}

/// Reading fields `location_id`, `body`, `name`, `unk9`, `unk10`, `equip` of [`CharacterInfo`].
#[verifier::opaque]
pub open spec fn spec_character_info_part1(s: Seq<u8>, p: int) -> SpecRead<(U32, BodyParam, Seq<char>, U8, U64, Seq<ItemDescView>,)> {
        match U32::spec_parse(s, p) {
            Err(e) => Err(e),
            Ok((location_id, p1)) => 
            match BodyParam::spec_parse(s, p1) {
                Err(e) => Err(e),
                Ok((body, p2)) => 
                match RString::spec_parse(s, p2) {
                    Err(e) => Err(e),
                    Ok((name, p3)) => 
                    match U8::spec_parse(s, p3) {
                        Err(e) => Err(e),
                        Ok((unk9, p4)) => 
                        match U64::spec_parse(s, p4) {
                            Err(e) => Err(e),
                            Ok((unk10, p5)) => 
                            match RVec::<ItemDesc>::spec_parse(s, p5) {
                                Err(e) => Err(e),
                                Ok((equip, p6)) => 
                                Ok(((location_id, body, name, unk9, unk10, equip,), p6))
                            }
                        }
                    }
                }
            }
        }
}

/// The bytes of fields `location_id`, `body`, `name`, `unk9`, `unk10`, `equip` of [`CharacterInfo`].
#[verifier::opaque]
pub open spec fn ser_character_info_part1(v: CharacterInfoView) -> Seq<u8> {
    (((((U32::spec_ser(v.location_id)) + (BodyParam::spec_ser(v.body))) + (RString::spec_ser(v.name))) + (U8::spec_ser(v.unk9))) + (U64::spec_ser(v.unk10))) + (RVec::<ItemDesc>::spec_ser(v.equip))
}

#[verifier::opaque]
pub open spec fn wf_character_info_part1(v: CharacterInfoView) -> bool {
    U32::spec_wf(v.location_id) && BodyParam::spec_wf(v.body) && RString::spec_wf(v.name) && U8::spec_wf(v.unk9) && U64::spec_wf(v.unk10) && RVec::<ItemDesc>::spec_wf(v.equip)
}

#[verifier::spinoff_prover]
#[verifier::rlimit(100)]
proof fn lemma_character_info_part1(v: CharacterInfoView, s: Seq<u8>, p: int)
    requires
        wf_character_info_part1(v),
        0 <= p,
        p + ser_character_info_part1(v).len() <= s.len(),
        s.subrange(p, p + ser_character_info_part1(v).len()) == ser_character_info_part1(v),
    ensures
        spec_character_info_part1(s, p) == Ok::<((U32, BodyParam, Seq<char>, U8, U64, Seq<ItemDescView>,), int), BinError>(((v.location_id, v.body, v.name, v.unk9, v.unk10, v.equip,), p + ser_character_info_part1(v).len())),
{
    reveal(spec_character_info_part1);
    reveal(ser_character_info_part1);
    reveal(wf_character_info_part1);
        let b0 = U32::spec_ser(v.location_id);
        let b1 = BodyParam::spec_ser(v.body);
        let b2 = RString::spec_ser(v.name);
        let b3 = U8::spec_ser(v.unk9);
        let b4 = U64::spec_ser(v.unk10);
        let b5 = RVec::<ItemDesc>::spec_ser(v.equip);
        let a0 = b0;
        let a1 = a0 + b1;
        let a2 = a1 + b2;
        let a3 = a2 + b3;
        let a4 = a3 + b4;
        let a5 = a4 + b5;
        lemma_subrange_prefix(s, p, a4, b5);
        lemma_subrange_prefix(s, p, a3, b4);
        lemma_subrange_prefix(s, p, a2, b3);
        lemma_subrange_prefix(s, p, a1, b2);
        lemma_subrange_prefix(s, p, a0, b1);
        U32::lemma_roundtrip(v.location_id, s, p);
        BodyParam::lemma_roundtrip(v.body, s, p + a0.len());
        RString::lemma_roundtrip(v.name, s, p + a1.len());
        U8::lemma_roundtrip(v.unk9, s, p + a2.len());
        U64::lemma_roundtrip(v.unk10, s, p + a3.len());
        RVec::<ItemDesc>::lemma_roundtrip(v.equip, s, p + a4.len());
}

fn parse_character_info_part1(data: &[u8], p: usize) -> (r: Result<((U32, BodyParam, RString, U8, U64, RVec<ItemDesc>,), usize), BinError>)
    requires
        p <= data@.len(),
    ensures
        r matches Ok((_, q)) ==> p <= q <= data@.len(),
        match r {
            Ok((x, q)) => spec_character_info_part1(data@, p as int) == Ok::<((U32, BodyParam, Seq<char>, U8, U64, Seq<ItemDescView>,), int), BinError>(((x.0@, x.1@, x.2@, x.3@, x.4@, x.5@,), q as int)),
            Err(e) => spec_character_info_part1(data@, p as int) == Err::<((U32, BodyParam, Seq<char>, U8, U64, Seq<ItemDescView>,), int), BinError>(e),
        },
{
    reveal(spec_character_info_part1);
        let (location_id, p1) = U32::parse(data, p)?;
        let (body, p2) = BodyParam::parse(data, p1)?;
        let (name, p3) = RString::parse(data, p2)?;
        let (unk9, p4) = U8::parse(data, p3)?;
        let (unk10, p5) = U64::parse(data, p4)?;
        let (equip, p6) = RVec::<ItemDesc>::parse(data, p5)?;
        Ok(((location_id, body, name, unk9, unk10, equip,), p6))
}

impl CharacterInfo {
    fn write_character_info_part1(&self, out: &mut Vec<u8>)
        ensures
            final(out)@ == old(out)@ + ser_character_info_part1(self@),
    {
        reveal(ser_character_info_part1);
            self.location_id.write(out);
            self.body.write(out);
            self.name.write(out);
            self.unk9.write(out);
            self.unk10.write(out);
            self.equip.write(out);
        assert(final(out)@ =~= old(out)@ + ser_character_info_part1(self@));
    }
}

impl Wire for CharacterInfo {
    open spec fn spec_parse(s: Seq<u8>, p: int) -> SpecRead<CharacterInfoView> {
        match spec_character_info_part0(s, p) {
            Err(e) => Err(e),
            Ok((t0, q0)) => 
            match spec_character_info_part1(s, q0) {
                Err(e) => Err(e),
                Ok((t1, q1)) => 
                Ok((CharacterInfoView { class: t0.0, sex: t0.1, level: t0.2, unk3: t0.3, hp: t0.4, mp: t0.5, location_id: t1.0, body: t1.1, name: t1.2, unk9: t1.3, unk10: t1.4, equip: t1.5 }, q1))
            }
        }
    }

    open spec fn spec_ser(v: CharacterInfoView) -> Seq<u8> {
        (ser_character_info_part0(v)) + (ser_character_info_part1(v))
    }

    open spec fn spec_wf(v: CharacterInfoView) -> bool {
        wf_character_info_part0(v) && wf_character_info_part1(v)
    }

    fn parse(data: &[u8], p: usize) -> (r: Result<(Self, usize), BinError>) {
        let (t0, q0) = parse_character_info_part0(data, p)?;
        let (t1, q1) = parse_character_info_part1(data, q0)?;
        Ok((CharacterInfo { class: t0.0, sex: t0.1, level: t0.2, unk3: t0.3, hp: t0.4, mp: t0.5, location_id: t1.0, body: t1.1, name: t1.2, unk9: t1.3, unk10: t1.4, equip: t1.5 }, q1))
    }

    fn write(&self, out: &mut Vec<u8>) {
        self.write_character_info_part0(out);
        self.write_character_info_part1(out);
        assert(final(out)@ =~= old(out)@ + Self::spec_ser(self@));
    }

    proof fn lemma_roundtrip(v: CharacterInfoView, s: Seq<u8>, p: int) {
        let b0 = ser_character_info_part0(v);
        let b1 = ser_character_info_part1(v);
        let a0 = b0;
        let a1 = a0 + b1;
        lemma_subrange_prefix(s, p, a0, b1);
        lemma_character_info_part0(v, s, p);
        lemma_character_info_part1(v, s, p + a0.len());
    }
}


#[derive(Debug, Clone, PartialEq, Eq)]
pub struct ServerVars {
    /// Game events archive?
    pub event_info: RZlib,
    /// Contains char ranges and http|ftp mentions
    pub some_regex: RZlib,
    /// "ru"
    pub mb_region: RString,
}

/// Mathematical form of [`ServerVars`].
pub struct ServerVarsView {
    pub event_info: Seq<u8>,
    pub some_regex: Seq<u8>,
    pub mb_region: Seq<char>,
}

impl View for ServerVars {
    type V = ServerVarsView;

    open spec fn view(&self) -> ServerVarsView {
        ServerVarsView {
            event_info: self.event_info@,
            some_regex: self.some_regex@,
            mb_region: self.mb_region@,
        }
    }
}

impl Wire for ServerVars {
    open spec fn spec_parse(s: Seq<u8>, p: int) -> SpecRead<ServerVarsView> {
        match RZlib::spec_parse(s, p) {
            Err(e) => Err(e),
            Ok((event_info, p1)) => 
            match RZlib::spec_parse(s, p1) {
                Err(e) => Err(e),
                Ok((some_regex, p2)) => 
                match RString::spec_parse(s, p2) {
                    Err(e) => Err(e),
                    Ok((mb_region, p3)) => 
                    Ok((ServerVarsView { event_info, some_regex, mb_region }, p3))
                }
            }
        }
    }

    open spec fn spec_ser(v: ServerVarsView) -> Seq<u8> {
        ((RZlib::spec_ser(v.event_info)) + (RZlib::spec_ser(v.some_regex))) + (RString::spec_ser(v.mb_region))
    }

    open spec fn spec_wf(v: ServerVarsView) -> bool {
        RZlib::spec_wf(v.event_info) && RZlib::spec_wf(v.some_regex) && RString::spec_wf(v.mb_region)
    }

    fn parse(data: &[u8], p: usize) -> (r: Result<(Self, usize), BinError>) {
        let (event_info, p1) = RZlib::parse(data, p)?;
        let (some_regex, p2) = RZlib::parse(data, p1)?;
        let (mb_region, p3) = RString::parse(data, p2)?;
        Ok((ServerVars { event_info, some_regex, mb_region }, p3))
    }

    fn write(&self, out: &mut Vec<u8>) {
        self.event_info.write(out);
        self.some_regex.write(out);
        self.mb_region.write(out);
        assert(final(out)@ =~= old(out)@ + Self::spec_ser(self@));
    }

    #[verifier::spinoff_prover]
    #[verifier::rlimit(50)]
    proof fn lemma_roundtrip(v: ServerVarsView, s: Seq<u8>, p: int) {
        let b0 = RZlib::spec_ser(v.event_info);
        let b1 = RZlib::spec_ser(v.some_regex);
        let b2 = RString::spec_ser(v.mb_region);
        let a0 = b0;
        let a1 = a0 + b1;
        let a2 = a1 + b2;
        lemma_subrange_prefix(s, p, a1, b2);
        lemma_subrange_prefix(s, p, a0, b1);
        RZlib::lemma_roundtrip(v.event_info, s, p);
        RZlib::lemma_roundtrip(v.some_regex, s, p + a0.len());
        RString::lemma_roundtrip(v.mb_region, s, p + a1.len());
    }
}


#[derive(Debug, Clone, PartialEq, Eq)]
pub struct Packet13 {
    pub unk: RZlib,
}

/// Mathematical form of [`Packet13`].
pub struct Packet13View {
    pub unk: Seq<u8>,
}

impl View for Packet13 {
    type V = Packet13View;

    open spec fn view(&self) -> Packet13View {
        Packet13View {
            unk: self.unk@,
        }
    }
}

impl Wire for Packet13 {
    open spec fn spec_parse(s: Seq<u8>, p: int) -> SpecRead<Packet13View> {
        match RZlib::spec_parse(s, p) {
            Err(e) => Err(e),
            Ok((unk, p1)) => 
            Ok((Packet13View { unk }, p1))
        }
    }

    open spec fn spec_ser(v: Packet13View) -> Seq<u8> {
        RZlib::spec_ser(v.unk)
    }

    open spec fn spec_wf(v: Packet13View) -> bool {
        RZlib::spec_wf(v.unk)
    }

    fn parse(data: &[u8], p: usize) -> (r: Result<(Self, usize), BinError>) {
        let (unk, p1) = RZlib::parse(data, p)?;
        Ok((Packet13 { unk }, p1))
    }

    fn write(&self, out: &mut Vec<u8>) {
        self.unk.write(out);
        assert(final(out)@ =~= old(out)@ + Self::spec_ser(self@));
    }

    #[verifier::spinoff_prover]
    #[verifier::rlimit(50)]
    proof fn lemma_roundtrip(v: Packet13View, s: Seq<u8>, p: int) {
        let b0 = RZlib::spec_ser(v.unk);
        let a0 = b0;
        RZlib::lemma_roundtrip(v.unk, s, p);
    }
}


#[derive(Debug, Clone, PartialEq, Eq)]
pub struct Packet16 {
    pub rdtsc0: U64,
    pub unk1: U64,
    pub rdtsc1: U64,
    pub unk2: U64,
    pub unk3: RString,
}

/// Mathematical form of [`Packet16`].
pub struct Packet16View {
    pub rdtsc0: U64,
    pub unk1: U64,
    pub rdtsc1: U64,
    pub unk2: U64,
    pub unk3: Seq<char>,
}

impl View for Packet16 {
    type V = Packet16View;

    open spec fn view(&self) -> Packet16View {
        Packet16View {
            rdtsc0: self.rdtsc0@,
            unk1: self.unk1@,
            rdtsc1: self.rdtsc1@,
            unk2: self.unk2@,
            unk3: self.unk3@,
        }
    }
}

impl Wire for Packet16 {
    open spec fn spec_parse(s: Seq<u8>, p: int) -> SpecRead<Packet16View> {
        match U64::spec_parse(s, p) {
            Err(e) => Err(e),
            Ok((rdtsc0, p1)) => 
            match U64::spec_parse(s, p1) {
                Err(e) => Err(e),
                Ok((unk1, p2)) => 
                match U64::spec_parse(s, p2) {
                    Err(e) => Err(e),
                    Ok((rdtsc1, p3)) => 
                    match U64::spec_parse(s, p3) {
                        Err(e) => Err(e),
                        Ok((unk2, p4)) => 
                        match RString::spec_parse(s, p4) {
                            Err(e) => Err(e),
                            Ok((unk3, p5)) => 
                            Ok((Packet16View { rdtsc0, unk1, rdtsc1, unk2, unk3 }, p5))
                        }
                    }
                }
            }
        }
    }

    open spec fn spec_ser(v: Packet16View) -> Seq<u8> {
        ((((U64::spec_ser(v.rdtsc0)) + (U64::spec_ser(v.unk1))) + (U64::spec_ser(v.rdtsc1))) + (U64::spec_ser(v.unk2))) + (RString::spec_ser(v.unk3))
    }

    open spec fn spec_wf(v: Packet16View) -> bool {
        U64::spec_wf(v.rdtsc0) && U64::spec_wf(v.unk1) && U64::spec_wf(v.rdtsc1) && U64::spec_wf(v.unk2) && RString::spec_wf(v.unk3)
    }

    fn parse(data: &[u8], p: usize) -> (r: Result<(Self, usize), BinError>) {
        let (rdtsc0, p1) = U64::parse(data, p)?;
        let (unk1, p2) = U64::parse(data, p1)?;
        let (rdtsc1, p3) = U64::parse(data, p2)?;
        let (unk2, p4) = U64::parse(data, p3)?;
        let (unk3, p5) = RString::parse(data, p4)?;
        Ok((Packet16 { rdtsc0, unk1, rdtsc1, unk2, unk3 }, p5))
    }

    fn write(&self, out: &mut Vec<u8>) {
        self.rdtsc0.write(out);
        self.unk1.write(out);
        self.rdtsc1.write(out);
        self.unk2.write(out);
        self.unk3.write(out);
        assert(final(out)@ =~= old(out)@ + Self::spec_ser(self@));
    }

    #[verifier::spinoff_prover]
    #[verifier::rlimit(50)]
    proof fn lemma_roundtrip(v: Packet16View, s: Seq<u8>, p: int) {
        let b0 = U64::spec_ser(v.rdtsc0);
        let b1 = U64::spec_ser(v.unk1);
        let b2 = U64::spec_ser(v.rdtsc1);
        let b3 = U64::spec_ser(v.unk2);
        let b4 = RString::spec_ser(v.unk3);
        let a0 = b0;
        let a1 = a0 + b1;
        let a2 = a1 + b2;
        let a3 = a2 + b3;
        let a4 = a3 + b4;
        lemma_subrange_prefix(s, p, a3, b4);
        lemma_subrange_prefix(s, p, a2, b3);
        lemma_subrange_prefix(s, p, a1, b2);
        lemma_subrange_prefix(s, p, a0, b1);
        U64::lemma_roundtrip(v.rdtsc0, s, p);
        U64::lemma_roundtrip(v.unk1, s, p + a0.len());
        U64::lemma_roundtrip(v.rdtsc1, s, p + a1.len());
        U64::lemma_roundtrip(v.unk2, s, p + a2.len());
        RString::lemma_roundtrip(v.unk3, s, p + a3.len());
    }
}


#[derive(Debug, Clone, PartialEq, Eq)]
pub struct ConnectionError {
    pub code: U32,
}

/// Mathematical form of [`ConnectionError`].
pub struct ConnectionErrorView {
    pub code: U32,
}

impl View for ConnectionError {
    type V = ConnectionErrorView;

    open spec fn view(&self) -> ConnectionErrorView {
        ConnectionErrorView {
            code: self.code@,
        }
    }
}

impl Wire for ConnectionError {
    open spec fn spec_parse(s: Seq<u8>, p: int) -> SpecRead<ConnectionErrorView> {
        match U32::spec_parse(s, p) {
            Err(e) => Err(e),
            Ok((code, p1)) => 
            Ok((ConnectionErrorView { code }, p1))
        }
    }

    open spec fn spec_ser(v: ConnectionErrorView) -> Seq<u8> {
        U32::spec_ser(v.code)
    }

    open spec fn spec_wf(v: ConnectionErrorView) -> bool {
        U32::spec_wf(v.code)
    }

    fn parse(data: &[u8], p: usize) -> (r: Result<(Self, usize), BinError>) {
        let (code, p1) = U32::parse(data, p)?;
        Ok((ConnectionError { code }, p1))
    }

    fn write(&self, out: &mut Vec<u8>) {
        self.code.write(out);
        assert(final(out)@ =~= old(out)@ + Self::spec_ser(self@));
    }

    #[verifier::spinoff_prover]
    #[verifier::rlimit(50)]
    proof fn lemma_roundtrip(v: ConnectionErrorView, s: Seq<u8>, p: int) {
        let b0 = U32::spec_ser(v.code);
        let a0 = b0;
        U32::lemma_roundtrip(v.code, s, p);
    }
}


#[derive(Debug, Clone, PartialEq, Eq)]
pub struct PinResult {
    pub pin_hash: RString,
    /// Not a "remember", probably
    /// Remeber seems to be client-side
    /// Client sends pin hash in auth req
    pub bool0: RBool,
    /// Maybe OK/CLOSE result
    pub bool1: RBool,
}

/// Mathematical form of [`PinResult`].
pub struct PinResultView {
    pub pin_hash: Seq<char>,
    pub bool0: RBool,
    pub bool1: RBool,
}

impl View for PinResult {
    type V = PinResultView;

    open spec fn view(&self) -> PinResultView {
        PinResultView {
            pin_hash: self.pin_hash@,
            bool0: self.bool0@,
            bool1: self.bool1@,
        }
    }
}

impl Wire for PinResult {
    open spec fn spec_parse(s: Seq<u8>, p: int) -> SpecRead<PinResultView> {
        match RString::spec_parse(s, p) {
            Err(e) => Err(e),
            Ok((pin_hash, p1)) => 
            match RBool::spec_parse(s, p1) {
                Err(e) => Err(e),
                Ok((bool0, p2)) => 
                match RBool::spec_parse(s, p2) {
                    Err(e) => Err(e),
                    Ok((bool1, p3)) => 
                    Ok((PinResultView { pin_hash, bool0, bool1 }, p3))
                }
            }
        }
    }

    open spec fn spec_ser(v: PinResultView) -> Seq<u8> {
        ((RString::spec_ser(v.pin_hash)) + (RBool::spec_ser(v.bool0))) + (RBool::spec_ser(v.bool1))
    }

    open spec fn spec_wf(v: PinResultView) -> bool {
        RString::spec_wf(v.pin_hash) && RBool::spec_wf(v.bool0) && RBool::spec_wf(v.bool1)
    }

    fn parse(data: &[u8], p: usize) -> (r: Result<(Self, usize), BinError>) {
        let (pin_hash, p1) = RString::parse(data, p)?;
        let (bool0, p2) = RBool::parse(data, p1)?;
        let (bool1, p3) = RBool::parse(data, p2)?;
        Ok((PinResult { pin_hash, bool0, bool1 }, p3))
    }

    fn write(&self, out: &mut Vec<u8>) {
        self.pin_hash.write(out);
        self.bool0.write(out);
        self.bool1.write(out);
        assert(final(out)@ =~= old(out)@ + Self::spec_ser(self@));
    }

    #[verifier::spinoff_prover]
    #[verifier::rlimit(50)]
    proof fn lemma_roundtrip(v: PinResultView, s: Seq<u8>, p: int) {
        let b0 = RString::spec_ser(v.pin_hash);
        let b1 = RBool::spec_ser(v.bool0);
        let b2 = RBool::spec_ser(v.bool1);
        let a0 = b0;
        let a1 = a0 + b1;
        let a2 = a1 + b2;
        lemma_subrange_prefix(s, p, a1, b2);
        lemma_subrange_prefix(s, p, a0, b1);
        RString::lemma_roundtrip(v.pin_hash, s, p);
        RBool::lemma_roundtrip(v.bool0, s, p + a0.len());
        RBool::lemma_roundtrip(v.bool1, s, p + a1.len());
    }
}


#[derive(Debug, Clone, PartialEq, Eq)]
pub struct Coords {
    pub x: F32,
    pub y: F32,
}

/// Mathematical form of [`Coords`].
pub struct CoordsView {
    pub x: F32,
    pub y: F32,
}

impl View for Coords {
    type V = CoordsView;

    open spec fn view(&self) -> CoordsView {
        CoordsView {
            x: self.x@,
            y: self.y@,
        }
    }
}

impl Wire for Coords {
    open spec fn spec_parse(s: Seq<u8>, p: int) -> SpecRead<CoordsView> {
        match F32::spec_parse(s, p) {
            Err(e) => Err(e),
            Ok((x, p1)) => 
            match F32::spec_parse(s, p1) {
                Err(e) => Err(e),
                Ok((y, p2)) => 
                Ok((CoordsView { x, y }, p2))
            }
        }
    }

    open spec fn spec_ser(v: CoordsView) -> Seq<u8> {
        (F32::spec_ser(v.x)) + (F32::spec_ser(v.y))
    }

    open spec fn spec_wf(v: CoordsView) -> bool {
        F32::spec_wf(v.x) && F32::spec_wf(v.y)
    }

    fn parse(data: &[u8], p: usize) -> (r: Result<(Self, usize), BinError>) {
        let (x, p1) = F32::parse(data, p)?;
        let (y, p2) = F32::parse(data, p1)?;
        Ok((Coords { x, y }, p2))
    }

    fn write(&self, out: &mut Vec<u8>) {
        self.x.write(out);
        self.y.write(out);
        assert(final(out)@ =~= old(out)@ + Self::spec_ser(self@));
    }

    #[verifier::spinoff_prover]
    #[verifier::rlimit(50)]
    proof fn lemma_roundtrip(v: CoordsView, s: Seq<u8>, p: int) {
        let b0 = F32::spec_ser(v.x);
        let b1 = F32::spec_ser(v.y);
        let a0 = b0;
        let a1 = a0 + b1;
        lemma_subrange_prefix(s, p, a0, b1);
        F32::lemma_roundtrip(v.x, s, p);
        F32::lemma_roundtrip(v.y, s, p + a0.len());
    }
}

/// Field order of coordinates on the wire: the `x` float element (tag 5
/// and the four little-endian bytes of its bits) comes first, then the `y`
/// one; reading takes `x` from the first element and `y` from the second.
pub proof fn lemma_coords_wire(c: CoordsView, s: Seq<u8>, p: int)
    requires
        0 <= p,
    ensures
        Coords::spec_ser(c) == seq![0x05u8] + crate::le::ser32(c.x.0) + seq![0x05u8] + crate::le::ser32(c.y.0),
        (p + 10 <= s.len() && s[p] == 0x05 && s[p + 5] == 0x05) ==> Coords::spec_parse(s, p)
            == Ok::<(CoordsView, int), BinError>((
            CoordsView { x: F32(crate::le::le32(s, p + 1)), y: F32(crate::le::le32(s, p + 6)) },
            p + 10,
        )),
{
    assert(Coords::spec_ser(c) =~= seq![0x05u8] + crate::le::ser32(c.x.0) + seq![0x05u8] + crate::le::ser32(c.y.0));
}


#[derive(Debug, Clone, PartialEq, Eq)]
pub struct PlayerData {
    /// Seems to be ignored
    /// Entity tag?
    pub unk0: U8,
    pub id: U32,
    pub class: U16,
    pub level: U16,
    pub unk4: U8,
    pub unk5: U8,
    pub unk6: U8,
    pub name: RString,
    pub hp: U32,
    pub mp: U32,
    pub location_id: U32,
    pub coords: Coords,
    pub unk13: U8,
    pub rot: F32,
    pub unk15: RBool,
    pub alive: RBool,
    pub unk17: RBool,
    pub unk18: RBool,
    pub unk19: RBool,
    pub body: BodyParam,
    pub hp2: U32,
    pub mp2: U32,
    pub movspeed: F32,
    pub unk24: U32,
    pub unk25: U32,
    pub unk26: U32,
    pub unk27: U32,
    pub unk28: U32,
    pub unk29: U8,
    pub unk30: U32,
    pub unk31: U32,
    pub unk32: RString,
    pub unk33: U64,
    pub unk34: U16,
    pub unk35: U16,
    pub unk36: RBool,
    pub unk37: RString,
    pub unk38: U32,
    pub effects: RVec<CameraEffect>,
    pub unk39: Op13,
    /// Exp on this level
    pub current_exp: U32,
    pub unk41: U32,
    pub unk42: U16,
    pub stats: RVec<F32>,
    pub stats2: Vec<F32>,
    pub unk45: U64,
    pub talents: RVec<U16>,
    pub unk47: RVec<U16>,
    pub unk48: U64,
    pub unk49: F32,
    pub unk50: F32,
    pub unk51: U16,
    pub unk52: U16,
    pub unk53: U32,
    pub unk54: U32,
    pub unk55: U32,
    pub unk56: [U16; 4],
    pub unk57: U16,
    pub unk58: [U16; 4],
    pub unk59: U16,
    pub unk60: CurrencyData,
    pub unk61: U8,
    pub ach_data: RZlib,
}

/// Mathematical form of [`PlayerData`].
pub struct PlayerDataView {
    pub unk0: U8,
    pub id: U32,
    pub class: U16,
    pub level: U16,
    pub unk4: U8,
    pub unk5: U8,
    pub unk6: U8,
    pub name: Seq<char>,
    pub hp: U32,
    pub mp: U32,
    pub location_id: U32,
    pub coords: CoordsView,
    pub unk13: U8,
    pub rot: F32,
    pub unk15: RBool,
    pub alive: RBool,
    pub unk17: RBool,
    pub unk18: RBool,
    pub unk19: RBool,
    pub body: BodyParam,
    pub hp2: U32,
    pub mp2: U32,
    pub movspeed: F32,
    pub unk24: U32,
    pub unk25: U32,
    pub unk26: U32,
    pub unk27: U32,
    pub unk28: U32,
    pub unk29: U8,
    pub unk30: U32,
    pub unk31: U32,
    pub unk32: Seq<char>,
    pub unk33: U64,
    pub unk34: U16,
    pub unk35: U16,
    pub unk36: RBool,
    pub unk37: Seq<char>,
    pub unk38: U32,
    pub effects: Seq<CameraEffectView>,
    pub unk39: Seq<u16>,
    pub current_exp: U32,
    pub unk41: U32,
    pub unk42: U16,
    pub stats: Seq<F32>,
    pub stats2: Seq<F32>,
    pub unk45: U64,
    pub talents: Seq<U16>,
    pub unk47: Seq<U16>,
    pub unk48: U64,
    pub unk49: F32,
    pub unk50: F32,
    pub unk51: U16,
    pub unk52: U16,
    pub unk53: U32,
    pub unk54: U32,
    pub unk55: U32,
    pub unk56: Seq<U16>,
    pub unk57: U16,
    pub unk58: Seq<U16>,
    pub unk59: U16,
    pub unk60: Seq<u16>,
    pub unk61: U8,
    pub ach_data: Seq<u8>,
}

impl View for PlayerData {
    type V = PlayerDataView;

    open spec fn view(&self) -> PlayerDataView {
        PlayerDataView {
            unk0: self.unk0@,
            id: self.id@,
            class: self.class@,
            level: self.level@,
            unk4: self.unk4@,
            unk5: self.unk5@,
            unk6: self.unk6@,
            name: self.name@,
            hp: self.hp@,
            mp: self.mp@,
            location_id: self.location_id@,
            coords: self.coords@,
            unk13: self.unk13@,
            rot: self.rot@,
            unk15: self.unk15@,
            alive: self.alive@,
            unk17: self.unk17@,
            unk18: self.unk18@,
            unk19: self.unk19@,
            body: self.body@,
            hp2: self.hp2@,
            mp2: self.mp2@,
            movspeed: self.movspeed@,
            unk24: self.unk24@,
            unk25: self.unk25@,
            unk26: self.unk26@,
            unk27: self.unk27@,
            unk28: self.unk28@,
            unk29: self.unk29@,
            unk30: self.unk30@,
            unk31: self.unk31@,
            unk32: self.unk32@,
            unk33: self.unk33@,
            unk34: self.unk34@,
            unk35: self.unk35@,
            unk36: self.unk36@,
            unk37: self.unk37@,
            unk38: self.unk38@,
            effects: self.effects@,
            unk39: self.unk39@,
            current_exp: self.current_exp@,
            unk41: self.unk41@,
            unk42: self.unk42@,
            stats: self.stats@,
            stats2: self.stats2@,
            unk45: self.unk45@,
            talents: self.talents@,
            unk47: self.unk47@,
            unk48: self.unk48@,
            unk49: self.unk49@,
            unk50: self.unk50@,
            unk51: self.unk51@,
            unk52: self.unk52@,
            unk53: self.unk53@,
            unk54: self.unk54@,
            unk55: self.unk55@,
            unk56: self.unk56@,
            unk57: self.unk57@,
            unk58: self.unk58@,
            unk59: self.unk59@,
            unk60: self.unk60@,
            unk61: self.unk61@,
            ach_data: self.ach_data@,
        }
    }
}

/// Reading fields `unk0`, `id`, `class`, `level`, `unk4`, `unk5` of [`PlayerData`].
#[verifier::opaque]
pub open spec fn spec_player_data_part0(s: Seq<u8>, p: int) -> SpecRead<(U8, U32, U16, U16, U8, U8,)> {
        match U8::spec_parse(s, p) {
            Err(e) => Err(e),
            Ok((unk0, p1)) => 
            match U32::spec_parse(s, p1) {
                Err(e) => Err(e),
                Ok((id, p2)) => 
                match U16::spec_parse(s, p2) {
                    Err(e) => Err(e),
                    Ok((class, p3)) => 
                    match U16::spec_parse(s, p3) {
                        Err(e) => Err(e),
                        Ok((level, p4)) => 
                        match U8::spec_parse(s, p4) {
                            Err(e) => Err(e),
                            Ok((unk4, p5)) => 
                            match U8::spec_parse(s, p5) {
                                Err(e) => Err(e),
                                Ok((unk5, p6)) => 
                                Ok(((unk0, id, class, level, unk4, unk5,), p6))
                            }
                        }
                    }
                }
            }
        }
}

/// The bytes of fields `unk0`, `id`, `class`, `level`, `unk4`, `unk5` of [`PlayerData`].
#[verifier::opaque]
pub open spec fn ser_player_data_part0(v: PlayerDataView) -> Seq<u8> {
    (((((U8::spec_ser(v.unk0)) + (U32::spec_ser(v.id))) + (U16::spec_ser(v.class))) + (U16::spec_ser(v.level))) + (U8::spec_ser(v.unk4))) + (U8::spec_ser(v.unk5))
}

#[verifier::opaque]
pub open spec fn wf_player_data_part0(v: PlayerDataView) -> bool {
    U8::spec_wf(v.unk0) && U32::spec_wf(v.id) && U16::spec_wf(v.class) && U16::spec_wf(v.level) && U8::spec_wf(v.unk4) && U8::spec_wf(v.unk5)
}

#[verifier::spinoff_prover]
#[verifier::rlimit(100)]
proof fn lemma_player_data_part0(v: PlayerDataView, s: Seq<u8>, p: int)
    requires
        wf_player_data_part0(v),
        0 <= p,
        p + ser_player_data_part0(v).len() <= s.len(),
        s.subrange(p, p + ser_player_data_part0(v).len()) == ser_player_data_part0(v),
    ensures
        spec_player_data_part0(s, p) == Ok::<((U8, U32, U16, U16, U8, U8,), int), BinError>(((v.unk0, v.id, v.class, v.level, v.unk4, v.unk5,), p + ser_player_data_part0(v).len())),
{
    reveal(spec_player_data_part0);
    reveal(ser_player_data_part0);
    reveal(wf_player_data_part0);
        let b0 = U8::spec_ser(v.unk0);
        let b1 = U32::spec_ser(v.id);
        let b2 = U16::spec_ser(v.class);
        let b3 = U16::spec_ser(v.level);
        let b4 = U8::spec_ser(v.unk4);
        let b5 = U8::spec_ser(v.unk5);
        let a0 = b0;
        let a1 = a0 + b1;
        let a2 = a1 + b2;
        let a3 = a2 + b3;
        let a4 = a3 + b4;
        let a5 = a4 + b5;
        lemma_subrange_prefix(s, p, a4, b5);
        lemma_subrange_prefix(s, p, a3, b4);
        lemma_subrange_prefix(s, p, a2, b3);
        lemma_subrange_prefix(s, p, a1, b2);
        lemma_subrange_prefix(s, p, a0, b1);
        U8::lemma_roundtrip(v.unk0, s, p);
        U32::lemma_roundtrip(v.id, s, p + a0.len());
        U16::lemma_roundtrip(v.class, s, p + a1.len());
        U16::lemma_roundtrip(v.level, s, p + a2.len());
        U8::lemma_roundtrip(v.unk4, s, p + a3.len());
        U8::lemma_roundtrip(v.unk5, s, p + a4.len());
}

fn parse_player_data_part0(data: &[u8], p: usize) -> (r: Result<((U8, U32, U16, U16, U8, U8,), usize), BinError>)
    requires
        p <= data@.len(),
    ensures
        r matches Ok((_, q)) ==> p <= q <= data@.len(),
        match r {
            Ok((x, q)) => spec_player_data_part0(data@, p as int) == Ok::<((U8, U32, U16, U16, U8, U8,), int), BinError>(((x.0@, x.1@, x.2@, x.3@, x.4@, x.5@,), q as int)),
            Err(e) => spec_player_data_part0(data@, p as int) == Err::<((U8, U32, U16, U16, U8, U8,), int), BinError>(e),
        },
{
    reveal(spec_player_data_part0);
        let (unk0, p1) = U8::parse(data, p)?;
        let (id, p2) = U32::parse(data, p1)?;
        let (class, p3) = U16::parse(data, p2)?;
        let (level, p4) = U16::parse(data, p3)?;
        let (unk4, p5) = U8::parse(data, p4)?;
        let (unk5, p6) = U8::parse(data, p5)?;
        Ok(((unk0, id, class, level, unk4, unk5,), p6))
}

impl PlayerData {
    fn write_player_data_part0(&self, out: &mut Vec<u8>)
        ensures
            final(out)@ == old(out)@ + ser_player_data_part0(self@),
    {
        reveal(ser_player_data_part0);
            self.unk0.write(out);
            self.id.write(out);
            self.class.write(out);
            self.level.write(out);
            self.unk4.write(out);
            self.unk5.write(out);
        assert(final(out)@ =~= old(out)@ + ser_player_data_part0(self@));
    }
}

/// Reading fields `unk6`, `name`, `hp`, `mp`, `location_id`, `coords` of [`PlayerData`].
#[verifier::opaque]
pub open spec fn spec_player_data_part1(s: Seq<u8>, p: int) -> SpecRead<(U8, Seq<char>, U32, U32, U32, CoordsView,)> {
        match U8::spec_parse(s, p) {
            Err(e) => Err(e),
            Ok((unk6, p1)) => 
            match RString::spec_parse(s, p1) {
                Err(e) => Err(e),
                Ok((name, p2)) => 
                match U32::spec_parse(s, p2) {
                    Err(e) => Err(e),
                    Ok((hp, p3)) => 
                    match U32::spec_parse(s, p3) {
                        Err(e) => Err(e),
                        Ok((mp, p4)) => 
                        match U32::spec_parse(s, p4) {
                            Err(e) => Err(e),
                            Ok((location_id, p5)) => 
                            match Coords::spec_parse(s, p5) {
                                Err(e) => Err(e),
                                Ok((coords, p6)) => 
                                Ok(((unk6, name, hp, mp, location_id, coords,), p6))
                            }
                        }
                    }
                }
            }
        }
}

/// The bytes of fields `unk6`, `name`, `hp`, `mp`, `location_id`, `coords` of [`PlayerData`].
#[verifier::opaque]
pub open spec fn ser_player_data_part1(v: PlayerDataView) -> Seq<u8> {
    (((((U8::spec_ser(v.unk6)) + (RString::spec_ser(v.name))) + (U32::spec_ser(v.hp))) + (U32::spec_ser(v.mp))) + (U32::spec_ser(v.location_id))) + (Coords::spec_ser(v.coords))
}

#[verifier::opaque]
pub open spec fn wf_player_data_part1(v: PlayerDataView) -> bool {
    U8::spec_wf(v.unk6) && RString::spec_wf(v.name) && U32::spec_wf(v.hp) && U32::spec_wf(v.mp) && U32::spec_wf(v.location_id) && Coords::spec_wf(v.coords)
}

#[verifier::spinoff_prover]
#[verifier::rlimit(100)]
proof fn lemma_player_data_part1(v: PlayerDataView, s: Seq<u8>, p: int)
    requires
        wf_player_data_part1(v),
        0 <= p,
        p + ser_player_data_part1(v).len() <= s.len(),
        s.subrange(p, p + ser_player_data_part1(v).len()) == ser_player_data_part1(v),
    ensures
        spec_player_data_part1(s, p) == Ok::<((U8, Seq<char>, U32, U32, U32, CoordsView,), int), BinError>(((v.unk6, v.name, v.hp, v.mp, v.location_id, v.coords,), p + ser_player_data_part1(v).len())),
{
    reveal(spec_player_data_part1);
    reveal(ser_player_data_part1);
    reveal(wf_player_data_part1);
        let b0 = U8::spec_ser(v.unk6);
        let b1 = RString::spec_ser(v.name);
        let b2 = U32::spec_ser(v.hp);
        let b3 = U32::spec_ser(v.mp);
        let b4 = U32::spec_ser(v.location_id);
        let b5 = Coords::spec_ser(v.coords);
        let a0 = b0;
        let a1 = a0 + b1;
        let a2 = a1 + b2;
        let a3 = a2 + b3;
        let a4 = a3 + b4;
        let a5 = a4 + b5;
        lemma_subrange_prefix(s, p, a4, b5);
        lemma_subrange_prefix(s, p, a3, b4);
        lemma_subrange_prefix(s, p, a2, b3);
        lemma_subrange_prefix(s, p, a1, b2);
        lemma_subrange_prefix(s, p, a0, b1);
        U8::lemma_roundtrip(v.unk6, s, p);
        RString::lemma_roundtrip(v.name, s, p + a0.len());
        U32::lemma_roundtrip(v.hp, s, p + a1.len());
        U32::lemma_roundtrip(v.mp, s, p + a2.len());
        U32::lemma_roundtrip(v.location_id, s, p + a3.len());
        Coords::lemma_roundtrip(v.coords, s, p + a4.len());
}

fn parse_player_data_part1(data: &[u8], p: usize) -> (r: Result<((U8, RString, U32, U32, U32, Coords,), usize), BinError>)
    requires
        p <= data@.len(),
    ensures
        r matches Ok((_, q)) ==> p <= q <= data@.len(),
        match r {
            Ok((x, q)) => spec_player_data_part1(data@, p as int) == Ok::<((U8, Seq<char>, U32, U32, U32, CoordsView,), int), BinError>(((x.0@, x.1@, x.2@, x.3@, x.4@, x.5@,), q as int)),
            Err(e) => spec_player_data_part1(data@, p as int) == Err::<((U8, Seq<char>, U32, U32, U32, CoordsView,), int), BinError>(e),
        },
{
    reveal(spec_player_data_part1);
        let (unk6, p1) = U8::parse(data, p)?;
        let (name, p2) = RString::parse(data, p1)?;
        let (hp, p3) = U32::parse(data, p2)?;
        let (mp, p4) = U32::parse(data, p3)?;
        let (location_id, p5) = U32::parse(data, p4)?;
        let (coords, p6) = Coords::parse(data, p5)?;
        Ok(((unk6, name, hp, mp, location_id, coords,), p6))
}

impl PlayerData {
    fn write_player_data_part1(&self, out: &mut Vec<u8>)
        ensures
            final(out)@ == old(out)@ + ser_player_data_part1(self@),
    {
        reveal(ser_player_data_part1);
            self.unk6.write(out);
            self.name.write(out);
            self.hp.write(out);
            self.mp.write(out);
            self.location_id.write(out);
            self.coords.write(out);
        assert(final(out)@ =~= old(out)@ + ser_player_data_part1(self@));
    }
}

/// Reading fields `unk13`, `rot`, `unk15`, `alive`, `unk17`, `unk18` of [`PlayerData`].
#[verifier::opaque]
pub open spec fn spec_player_data_part2(s: Seq<u8>, p: int) -> SpecRead<(U8, F32, RBool, RBool, RBool, RBool,)> {
        match U8::spec_parse(s, p) {
            Err(e) => Err(e),
            Ok((unk13, p1)) => 
            match F32::spec_parse(s, p1) {
                Err(e) => Err(e),
                Ok((rot, p2)) => 
                match RBool::spec_parse(s, p2) {
                    Err(e) => Err(e),
                    Ok((unk15, p3)) => 
                    match RBool::spec_parse(s, p3) {
                        Err(e) => Err(e),
                        Ok((alive, p4)) => 
                        match RBool::spec_parse(s, p4) {
                            Err(e) => Err(e),
                            Ok((unk17, p5)) => 
                            match RBool::spec_parse(s, p5) {
                                Err(e) => Err(e),
                                Ok((unk18, p6)) => 
                                Ok(((unk13, rot, unk15, alive, unk17, unk18,), p6))
                            }
                        }
                    }
                }
            }
        }
}

/// The bytes of fields `unk13`, `rot`, `unk15`, `alive`, `unk17`, `unk18` of [`PlayerData`].
#[verifier::opaque]
pub open spec fn ser_player_data_part2(v: PlayerDataView) -> Seq<u8> {
    (((((U8::spec_ser(v.unk13)) + (F32::spec_ser(v.rot))) + (RBool::spec_ser(v.unk15))) + (RBool::spec_ser(v.alive))) + (RBool::spec_ser(v.unk17))) + (RBool::spec_ser(v.unk18))
}

#[verifier::opaque]
pub open spec fn wf_player_data_part2(v: PlayerDataView) -> bool {
    U8::spec_wf(v.unk13) && F32::spec_wf(v.rot) && RBool::spec_wf(v.unk15) && RBool::spec_wf(v.alive) && RBool::spec_wf(v.unk17) && RBool::spec_wf(v.unk18)
}

#[verifier::spinoff_prover]
#[verifier::rlimit(100)]
proof fn lemma_player_data_part2(v: PlayerDataView, s: Seq<u8>, p: int)
    requires
        wf_player_data_part2(v),
        0 <= p,
        p + ser_player_data_part2(v).len() <= s.len(),
        s.subrange(p, p + ser_player_data_part2(v).len()) == ser_player_data_part2(v),
    ensures
        spec_player_data_part2(s, p) == Ok::<((U8, F32, RBool, RBool, RBool, RBool,), int), BinError>(((v.unk13, v.rot, v.unk15, v.alive, v.unk17, v.unk18,), p + ser_player_data_part2(v).len())),
{
    reveal(spec_player_data_part2);
    reveal(ser_player_data_part2);
    reveal(wf_player_data_part2);
        let b0 = U8::spec_ser(v.unk13);
        let b1 = F32::spec_ser(v.rot);
        let b2 = RBool::spec_ser(v.unk15);
        let b3 = RBool::spec_ser(v.alive);
        let b4 = RBool::spec_ser(v.unk17);
        let b5 = RBool::spec_ser(v.unk18);
        let a0 = b0;
        let a1 = a0 + b1;
        let a2 = a1 + b2;
        let a3 = a2 + b3;
        let a4 = a3 + b4;
        let a5 = a4 + b5;
        lemma_subrange_prefix(s, p, a4, b5);
        lemma_subrange_prefix(s, p, a3, b4);
        lemma_subrange_prefix(s, p, a2, b3);
        lemma_subrange_prefix(s, p, a1, b2);
        lemma_subrange_prefix(s, p, a0, b1);
        U8::lemma_roundtrip(v.unk13, s, p);
        F32::lemma_roundtrip(v.rot, s, p + a0.len());
        RBool::lemma_roundtrip(v.unk15, s, p + a1.len());
        RBool::lemma_roundtrip(v.alive, s, p + a2.len());
        RBool::lemma_roundtrip(v.unk17, s, p + a3.len());
        RBool::lemma_roundtrip(v.unk18, s, p + a4.len());
}

fn parse_player_data_part2(data: &[u8], p: usize) -> (r: Result<((U8, F32, RBool, RBool, RBool, RBool,), usize), BinError>)
    requires
        p <= data@.len(),
    ensures
        r matches Ok((_, q)) ==> p <= q <= data@.len(),
        match r {
            Ok((x, q)) => spec_player_data_part2(data@, p as int) == Ok::<((U8, F32, RBool, RBool, RBool, RBool,), int), BinError>(((x.0@, x.1@, x.2@, x.3@, x.4@, x.5@,), q as int)),
            Err(e) => spec_player_data_part2(data@, p as int) == Err::<((U8, F32, RBool, RBool, RBool, RBool,), int), BinError>(e),
        },
{
    reveal(spec_player_data_part2);
        let (unk13, p1) = U8::parse(data, p)?;
        let (rot, p2) = F32::parse(data, p1)?;
        let (unk15, p3) = RBool::parse(data, p2)?;
        let (alive, p4) = RBool::parse(data, p3)?;
        let (unk17, p5) = RBool::parse(data, p4)?;
        let (unk18, p6) = RBool::parse(data, p5)?;
        Ok(((unk13, rot, unk15, alive, unk17, unk18,), p6))
}

impl PlayerData {
    fn write_player_data_part2(&self, out: &mut Vec<u8>)
        ensures
            final(out)@ == old(out)@ + ser_player_data_part2(self@),
    {
        reveal(ser_player_data_part2);
            self.unk13.write(out);
            self.rot.write(out);
            self.unk15.write(out);
            self.alive.write(out);
            self.unk17.write(out);
            self.unk18.write(out);
        assert(final(out)@ =~= old(out)@ + ser_player_data_part2(self@));
    }
}

/// Reading fields `unk19`, `body`, `hp2`, `mp2`, `movspeed`, `unk24` of [`PlayerData`].
#[verifier::opaque]
pub open spec fn spec_player_data_part3(s: Seq<u8>, p: int) -> SpecRead<(RBool, BodyParam, U32, U32, F32, U32,)> {
        match RBool::spec_parse(s, p) {
            Err(e) => Err(e),
            Ok((unk19, p1)) => 
            match BodyParam::spec_parse(s, p1) {
                Err(e) => Err(e),
                Ok((body, p2)) => 
                match U32::spec_parse(s, p2) {
                    Err(e) => Err(e),
                    Ok((hp2, p3)) => 
                    match U32::spec_parse(s, p3) {
                        Err(e) => Err(e),
                        Ok((mp2, p4)) => 
                        match F32::spec_parse(s, p4) {
                            Err(e) => Err(e),
                            Ok((movspeed, p5)) => 
                            match U32::spec_parse(s, p5) {
                                Err(e) => Err(e),
                                Ok((unk24, p6)) => 
                                Ok(((unk19, body, hp2, mp2, movspeed, unk24,), p6))
                            }
                        }
                    }
                }
            }
        }
}

/// The bytes of fields `unk19`, `body`, `hp2`, `mp2`, `movspeed`, `unk24` of [`PlayerData`].
#[verifier::opaque]
pub open spec fn ser_player_data_part3(v: PlayerDataView) -> Seq<u8> {
    (((((RBool::spec_ser(v.unk19)) + (BodyParam::spec_ser(v.body))) + (U32::spec_ser(v.hp2))) + (U32::spec_ser(v.mp2))) + (F32::spec_ser(v.movspeed))) + (U32::spec_ser(v.unk24))
}

#[verifier::opaque]
pub open spec fn wf_player_data_part3(v: PlayerDataView) -> bool {
    RBool::spec_wf(v.unk19) && BodyParam::spec_wf(v.body) && U32::spec_wf(v.hp2) && U32::spec_wf(v.mp2) && F32::spec_wf(v.movspeed) && U32::spec_wf(v.unk24)
}

#[verifier::spinoff_prover]
#[verifier::rlimit(100)]
proof fn lemma_player_data_part3(v: PlayerDataView, s: Seq<u8>, p: int)
    requires
        wf_player_data_part3(v),
        0 <= p,
        p + ser_player_data_part3(v).len() <= s.len(),
        s.subrange(p, p + ser_player_data_part3(v).len()) == ser_player_data_part3(v),
    ensures
        spec_player_data_part3(s, p) == Ok::<((RBool, BodyParam, U32, U32, F32, U32,), int), BinError>(((v.unk19, v.body, v.hp2, v.mp2, v.movspeed, v.unk24,), p + ser_player_data_part3(v).len())),
{
    reveal(spec_player_data_part3);
    reveal(ser_player_data_part3);
    reveal(wf_player_data_part3);
        let b0 = RBool::spec_ser(v.unk19);
        let b1 = BodyParam::spec_ser(v.body);
        let b2 = U32::spec_ser(v.hp2);
        let b3 = U32::spec_ser(v.mp2);
        let b4 = F32::spec_ser(v.movspeed);
        let b5 = U32::spec_ser(v.unk24);
        let a0 = b0;
        let a1 = a0 + b1;
        let a2 = a1 + b2;
        let a3 = a2 + b3;
        let a4 = a3 + b4;
        let a5 = a4 + b5;
        lemma_subrange_prefix(s, p, a4, b5);
        lemma_subrange_prefix(s, p, a3, b4);
        lemma_subrange_prefix(s, p, a2, b3);
        lemma_subrange_prefix(s, p, a1, b2);
        lemma_subrange_prefix(s, p, a0, b1);
        RBool::lemma_roundtrip(v.unk19, s, p);
        BodyParam::lemma_roundtrip(v.body, s, p + a0.len());
        U32::lemma_roundtrip(v.hp2, s, p + a1.len());
        U32::lemma_roundtrip(v.mp2, s, p + a2.len());
        F32::lemma_roundtrip(v.movspeed, s, p + a3.len());
        U32::lemma_roundtrip(v.unk24, s, p + a4.len());
}

fn parse_player_data_part3(data: &[u8], p: usize) -> (r: Result<((RBool, BodyParam, U32, U32, F32, U32,), usize), BinError>)
    requires
        p <= data@.len(),
    ensures
        r matches Ok((_, q)) ==> p <= q <= data@.len(),
        match r {
            Ok((x, q)) => spec_player_data_part3(data@, p as int) == Ok::<((RBool, BodyParam, U32, U32, F32, U32,), int), BinError>(((x.0@, x.1@, x.2@, x.3@, x.4@, x.5@,), q as int)),
            Err(e) => spec_player_data_part3(data@, p as int) == Err::<((RBool, BodyParam, U32, U32, F32, U32,), int), BinError>(e),
        },
{
    reveal(spec_player_data_part3);
        let (unk19, p1) = RBool::parse(data, p)?;
        let (body, p2) = BodyParam::parse(data, p1)?;
        let (hp2, p3) = U32::parse(data, p2)?;
        let (mp2, p4) = U32::parse(data, p3)?;
        let (movspeed, p5) = F32::parse(data, p4)?;
        let (unk24, p6) = U32::parse(data, p5)?;
        Ok(((unk19, body, hp2, mp2, movspeed, unk24,), p6))
}

impl PlayerData {
    fn write_player_data_part3(&self, out: &mut Vec<u8>)
        ensures
            final(out)@ == old(out)@ + ser_player_data_part3(self@),
    {
        reveal(ser_player_data_part3);
            self.unk19.write(out);
            self.body.write(out);
            self.hp2.write(out);
            self.mp2.write(out);
            self.movspeed.write(out);
            self.unk24.write(out);
        assert(final(out)@ =~= old(out)@ + ser_player_data_part3(self@));
    }
}

/// Reading fields `unk25`, `unk26`, `unk27`, `unk28`, `unk29`, `unk30` of [`PlayerData`].
#[verifier::opaque]
pub open spec fn spec_player_data_part4(s: Seq<u8>, p: int) -> SpecRead<(U32, U32, U32, U32, U8, U32,)> {
        match U32::spec_parse(s, p) {
            Err(e) => Err(e),
            Ok((unk25, p1)) => 
            match U32::spec_parse(s, p1) {
                Err(e) => Err(e),
                Ok((unk26, p2)) => 
                match U32::spec_parse(s, p2) {
                    Err(e) => Err(e),
                    Ok((unk27, p3)) => 
                    match U32::spec_parse(s, p3) {
                        Err(e) => Err(e),
                        Ok((unk28, p4)) => 
                        match U8::spec_parse(s, p4) {
                            Err(e) => Err(e),
                            Ok((unk29, p5)) => 
                            match U32::spec_parse(s, p5) {
                                Err(e) => Err(e),
                                Ok((unk30, p6)) => 
                                Ok(((unk25, unk26, unk27, unk28, unk29, unk30,), p6))
                            }
                        }
                    }
                }
            }
        }
}

/// The bytes of fields `unk25`, `unk26`, `unk27`, `unk28`, `unk29`, `unk30` of [`PlayerData`].
#[verifier::opaque]
pub open spec fn ser_player_data_part4(v: PlayerDataView) -> Seq<u8> {
    (((((U32::spec_ser(v.unk25)) + (U32::spec_ser(v.unk26))) + (U32::spec_ser(v.unk27))) + (U32::spec_ser(v.unk28))) + (U8::spec_ser(v.unk29))) + (U32::spec_ser(v.unk30))
}

#[verifier::opaque]
pub open spec fn wf_player_data_part4(v: PlayerDataView) -> bool {
    U32::spec_wf(v.unk25) && U32::spec_wf(v.unk26) && U32::spec_wf(v.unk27) && U32::spec_wf(v.unk28) && U8::spec_wf(v.unk29) && U32::spec_wf(v.unk30)
}

#[verifier::spinoff_prover]
#[verifier::rlimit(100)]
proof fn lemma_player_data_part4(v: PlayerDataView, s: Seq<u8>, p: int)
    requires
        wf_player_data_part4(v),
        0 <= p,
        p + ser_player_data_part4(v).len() <= s.len(),
        s.subrange(p, p + ser_player_data_part4(v).len()) == ser_player_data_part4(v),
    ensures
        spec_player_data_part4(s, p) == Ok::<((U32, U32, U32, U32, U8, U32,), int), BinError>(((v.unk25, v.unk26, v.unk27, v.unk28, v.unk29, v.unk30,), p + ser_player_data_part4(v).len())),
{
    reveal(spec_player_data_part4);
    reveal(ser_player_data_part4);
    reveal(wf_player_data_part4);
        let b0 = U32::spec_ser(v.unk25);
        let b1 = U32::spec_ser(v.unk26);
        let b2 = U32::spec_ser(v.unk27);
        let b3 = U32::spec_ser(v.unk28);
        let b4 = U8::spec_ser(v.unk29);
        let b5 = U32::spec_ser(v.unk30);
        let a0 = b0;
        let a1 = a0 + b1;
        let a2 = a1 + b2;
        let a3 = a2 + b3;
        let a4 = a3 + b4;
        let a5 = a4 + b5;
        lemma_subrange_prefix(s, p, a4, b5);
        lemma_subrange_prefix(s, p, a3, b4);
        lemma_subrange_prefix(s, p, a2, b3);
        lemma_subrange_prefix(s, p, a1, b2);
        lemma_subrange_prefix(s, p, a0, b1);
        U32::lemma_roundtrip(v.unk25, s, p);
        U32::lemma_roundtrip(v.unk26, s, p + a0.len());
        U32::lemma_roundtrip(v.unk27, s, p + a1.len());
        U32::lemma_roundtrip(v.unk28, s, p + a2.len());
        U8::lemma_roundtrip(v.unk29, s, p + a3.len());
        U32::lemma_roundtrip(v.unk30, s, p + a4.len());
}

fn parse_player_data_part4(data: &[u8], p: usize) -> (r: Result<((U32, U32, U32, U32, U8, U32,), usize), BinError>)
    requires
        p <= data@.len(),
    ensures
        r matches Ok((_, q)) ==> p <= q <= data@.len(),
        match r {
            Ok((x, q)) => spec_player_data_part4(data@, p as int) == Ok::<((U32, U32, U32, U32, U8, U32,), int), BinError>(((x.0@, x.1@, x.2@, x.3@, x.4@, x.5@,), q as int)),
            Err(e) => spec_player_data_part4(data@, p as int) == Err::<((U32, U32, U32, U32, U8, U32,), int), BinError>(e),
        },
{
    reveal(spec_player_data_part4);
        let (unk25, p1) = U32::parse(data, p)?;
        let (unk26, p2) = U32::parse(data, p1)?;
        let (unk27, p3) = U32::parse(data, p2)?;
        let (unk28, p4) = U32::parse(data, p3)?;
        let (unk29, p5) = U8::parse(data, p4)?;
        let (unk30, p6) = U32::parse(data, p5)?;
        Ok(((unk25, unk26, unk27, unk28, unk29, unk30,), p6))
}

impl PlayerData {
    fn write_player_data_part4(&self, out: &mut Vec<u8>)
        ensures
            final(out)@ == old(out)@ + ser_player_data_part4(self@),
    {
        reveal(ser_player_data_part4);
            self.unk25.write(out);
            self.unk26.write(out);
            self.unk27.write(out);
            self.unk28.write(out);
            self.unk29.write(out);
            self.unk30.write(out);
        assert(final(out)@ =~= old(out)@ + ser_player_data_part4(self@));
    }
}

/// Reading fields `unk31`, `unk32`, `unk33`, `unk34`, `unk35`, `unk36` of [`PlayerData`].
#[verifier::opaque]
pub open spec fn spec_player_data_part5(s: Seq<u8>, p: int) -> SpecRead<(U32, Seq<char>, U64, U16, U16, RBool,)> {
        match U32::spec_parse(s, p) {
            Err(e) => Err(e),
            Ok((unk31, p1)) => 
            match RString::spec_parse(s, p1) {
                Err(e) => Err(e),
                Ok((unk32, p2)) => 
                match U64::spec_parse(s, p2) {
                    Err(e) => Err(e),
                    Ok((unk33, p3)) => 
                    match U16::spec_parse(s, p3) {
                        Err(e) => Err(e),
                        Ok((unk34, p4)) => 
                        match U16::spec_parse(s, p4) {
                            Err(e) => Err(e),
                            Ok((unk35, p5)) => 
                            match RBool::spec_parse(s, p5) {
                                Err(e) => Err(e),
                                Ok((unk36, p6)) => 
                                Ok(((unk31, unk32, unk33, unk34, unk35, unk36,), p6))
                            }
                        }
                    }
                }
            }
        }
}

/// The bytes of fields `unk31`, `unk32`, `unk33`, `unk34`, `unk35`, `unk36` of [`PlayerData`].
#[verifier::opaque]
pub open spec fn ser_player_data_part5(v: PlayerDataView) -> Seq<u8> {
    (((((U32::spec_ser(v.unk31)) + (RString::spec_ser(v.unk32))) + (U64::spec_ser(v.unk33))) + (U16::spec_ser(v.unk34))) + (U16::spec_ser(v.unk35))) + (RBool::spec_ser(v.unk36))
}

#[verifier::opaque]
pub open spec fn wf_player_data_part5(v: PlayerDataView) -> bool {
    U32::spec_wf(v.unk31) && RString::spec_wf(v.unk32) && U64::spec_wf(v.unk33) && U16::spec_wf(v.unk34) && U16::spec_wf(v.unk35) && RBool::spec_wf(v.unk36)
}

#[verifier::spinoff_prover]
#[verifier::rlimit(100)]
proof fn lemma_player_data_part5(v: PlayerDataView, s: Seq<u8>, p: int)
    requires
        wf_player_data_part5(v),
        0 <= p,
        p + ser_player_data_part5(v).len() <= s.len(),
        s.subrange(p, p + ser_player_data_part5(v).len()) == ser_player_data_part5(v),
    ensures
        spec_player_data_part5(s, p) == Ok::<((U32, Seq<char>, U64, U16, U16, RBool,), int), BinError>(((v.unk31, v.unk32, v.unk33, v.unk34, v.unk35, v.unk36,), p + ser_player_data_part5(v).len())),
{
    reveal(spec_player_data_part5);
    reveal(ser_player_data_part5);
    reveal(wf_player_data_part5);
        let b0 = U32::spec_ser(v.unk31);
        let b1 = RString::spec_ser(v.unk32);
        let b2 = U64::spec_ser(v.unk33);
        let b3 = U16::spec_ser(v.unk34);
        let b4 = U16::spec_ser(v.unk35);
        let b5 = RBool::spec_ser(v.unk36);
        let a0 = b0;
        let a1 = a0 + b1;
        let a2 = a1 + b2;
        let a3 = a2 + b3;
        let a4 = a3 + b4;
        let a5 = a4 + b5;
        lemma_subrange_prefix(s, p, a4, b5);
        lemma_subrange_prefix(s, p, a3, b4);
        lemma_subrange_prefix(s, p, a2, b3);
        lemma_subrange_prefix(s, p, a1, b2);
        lemma_subrange_prefix(s, p, a0, b1);
        U32::lemma_roundtrip(v.unk31, s, p);
        RString::lemma_roundtrip(v.unk32, s, p + a0.len());
        U64::lemma_roundtrip(v.unk33, s, p + a1.len());
        U16::lemma_roundtrip(v.unk34, s, p + a2.len());
        U16::lemma_roundtrip(v.unk35, s, p + a3.len());
        RBool::lemma_roundtrip(v.unk36, s, p + a4.len());
}

fn parse_player_data_part5(data: &[u8], p: usize) -> (r: Result<((U32, RString, U64, U16, U16, RBool,), usize), BinError>)
    requires
        p <= data@.len(),
    ensures
        r matches Ok((_, q)) ==> p <= q <= data@.len(),
        match r {
            Ok((x, q)) => spec_player_data_part5(data@, p as int) == Ok::<((U32, Seq<char>, U64, U16, U16, RBool,), int), BinError>(((x.0@, x.1@, x.2@, x.3@, x.4@, x.5@,), q as int)),
            Err(e) => spec_player_data_part5(data@, p as int) == Err::<((U32, Seq<char>, U64, U16, U16, RBool,), int), BinError>(e),
        },
{
    reveal(spec_player_data_part5);
        let (unk31, p1) = U32::parse(data, p)?;
        let (unk32, p2) = RString::parse(data, p1)?;
        let (unk33, p3) = U64::parse(data, p2)?;
        let (unk34, p4) = U16::parse(data, p3)?;
        let (unk35, p5) = U16::parse(data, p4)?;
        let (unk36, p6) = RBool::parse(data, p5)?;
        Ok(((unk31, unk32, unk33, unk34, unk35, unk36,), p6))
}

impl PlayerData {
    fn write_player_data_part5(&self, out: &mut Vec<u8>)
        ensures
            final(out)@ == old(out)@ + ser_player_data_part5(self@),
    {
        reveal(ser_player_data_part5);
            self.unk31.write(out);
            self.unk32.write(out);
            self.unk33.write(out);
            self.unk34.write(out);
            self.unk35.write(out);
            self.unk36.write(out);
        assert(final(out)@ =~= old(out)@ + ser_player_data_part5(self@));
    }
}

/// Reading fields `unk37`, `unk38`, `effects`, `unk39`, `current_exp`, `unk41` of [`PlayerData`].
#[verifier::opaque]
pub open spec fn spec_player_data_part6(s: Seq<u8>, p: int) -> SpecRead<(Seq<char>, U32, Seq<CameraEffectView>, Seq<u16>, U32, U32,)> {
        match RString::spec_parse(s, p) {
            Err(e) => Err(e),
            Ok((unk37, p1)) => 
            match U32::spec_parse(s, p1) {
                Err(e) => Err(e),
                Ok((unk38, p2)) => 
                match RVec::<CameraEffect>::spec_parse(s, p2) {
                    Err(e) => Err(e),
                    Ok((effects, p3)) => 
                    match Op13::spec_parse(s, p3) {
                        Err(e) => Err(e),
                        Ok((unk39, p4)) => 
                        match U32::spec_parse(s, p4) {
                            Err(e) => Err(e),
                            Ok((current_exp, p5)) => 
                            match U32::spec_parse(s, p5) {
                                Err(e) => Err(e),
                                Ok((unk41, p6)) => 
                                Ok(((unk37, unk38, effects, unk39, current_exp, unk41,), p6))
                            }
                        }
                    }
                }
            }
        }
}

/// The bytes of fields `unk37`, `unk38`, `effects`, `unk39`, `current_exp`, `unk41` of [`PlayerData`].
#[verifier::opaque]
pub open spec fn ser_player_data_part6(v: PlayerDataView) -> Seq<u8> {
    (((((RString::spec_ser(v.unk37)) + (U32::spec_ser(v.unk38))) + (RVec::<CameraEffect>::spec_ser(v.effects))) + (Op13::spec_ser(v.unk39))) + (U32::spec_ser(v.current_exp))) + (U32::spec_ser(v.unk41))
}

#[verifier::opaque]
pub open spec fn wf_player_data_part6(v: PlayerDataView) -> bool {
    RString::spec_wf(v.unk37) && U32::spec_wf(v.unk38) && RVec::<CameraEffect>::spec_wf(v.effects) && Op13::spec_wf(v.unk39) && U32::spec_wf(v.current_exp) && U32::spec_wf(v.unk41)
}

#[verifier::spinoff_prover]
#[verifier::rlimit(100)]
proof fn lemma_player_data_part6(v: PlayerDataView, s: Seq<u8>, p: int)
    requires
        wf_player_data_part6(v),
        0 <= p,
        p + ser_player_data_part6(v).len() <= s.len(),
        s.subrange(p, p + ser_player_data_part6(v).len()) == ser_player_data_part6(v),
    ensures
        spec_player_data_part6(s, p) == Ok::<((Seq<char>, U32, Seq<CameraEffectView>, Seq<u16>, U32, U32,), int), BinError>(((v.unk37, v.unk38, v.effects, v.unk39, v.current_exp, v.unk41,), p + ser_player_data_part6(v).len())),
{
    reveal(spec_player_data_part6);
    reveal(ser_player_data_part6);
    reveal(wf_player_data_part6);
        let b0 = RString::spec_ser(v.unk37);
        let b1 = U32::spec_ser(v.unk38);
        let b2 = RVec::<CameraEffect>::spec_ser(v.effects);
        let b3 = Op13::spec_ser(v.unk39);
        let b4 = U32::spec_ser(v.current_exp);
        let b5 = U32::spec_ser(v.unk41);
        let a0 = b0;
        let a1 = a0 + b1;
        let a2 = a1 + b2;
        let a3 = a2 + b3;
        let a4 = a3 + b4;
        let a5 = a4 + b5;
        lemma_subrange_prefix(s, p, a4, b5);
        lemma_subrange_prefix(s, p, a3, b4);
        lemma_subrange_prefix(s, p, a2, b3);
        lemma_subrange_prefix(s, p, a1, b2);
        lemma_subrange_prefix(s, p, a0, b1);
        RString::lemma_roundtrip(v.unk37, s, p);
        U32::lemma_roundtrip(v.unk38, s, p + a0.len());
        RVec::<CameraEffect>::lemma_roundtrip(v.effects, s, p + a1.len());
        Op13::lemma_roundtrip(v.unk39, s, p + a2.len());
        U32::lemma_roundtrip(v.current_exp, s, p + a3.len());
        U32::lemma_roundtrip(v.unk41, s, p + a4.len());
}

fn parse_player_data_part6(data: &[u8], p: usize) -> (r: Result<((RString, U32, RVec<CameraEffect>, Op13, U32, U32,), usize), BinError>)
    requires
        p <= data@.len(),
    ensures
        r matches Ok((_, q)) ==> p <= q <= data@.len(),
        match r {
            Ok((x, q)) => spec_player_data_part6(data@, p as int) == Ok::<((Seq<char>, U32, Seq<CameraEffectView>, Seq<u16>, U32, U32,), int), BinError>(((x.0@, x.1@, x.2@, x.3@, x.4@, x.5@,), q as int)),
            Err(e) => spec_player_data_part6(data@, p as int) == Err::<((Seq<char>, U32, Seq<CameraEffectView>, Seq<u16>, U32, U32,), int), BinError>(e),
        },
{
    reveal(spec_player_data_part6);
        let (unk37, p1) = RString::parse(data, p)?;
        let (unk38, p2) = U32::parse(data, p1)?;
        let (effects, p3) = RVec::<CameraEffect>::parse(data, p2)?;
        let (unk39, p4) = Op13::parse(data, p3)?;
        let (current_exp, p5) = U32::parse(data, p4)?;
        let (unk41, p6) = U32::parse(data, p5)?;
        Ok(((unk37, unk38, effects, unk39, current_exp, unk41,), p6))
}

impl PlayerData {
    fn write_player_data_part6(&self, out: &mut Vec<u8>)
        ensures
            final(out)@ == old(out)@ + ser_player_data_part6(self@),
    {
        reveal(ser_player_data_part6);
            self.unk37.write(out);
            self.unk38.write(out);
            self.effects.write(out);
            self.unk39.write(out);
            self.current_exp.write(out);
            self.unk41.write(out);
        assert(final(out)@ =~= old(out)@ + ser_player_data_part6(self@));
    }
}

/// Reading fields `unk42`, `stats`, `stats2`, `unk45`, `talents`, `unk47` of [`PlayerData`].
#[verifier::opaque]
pub open spec fn spec_player_data_part7(s: Seq<u8>, p: int) -> SpecRead<(U16, Seq<F32>, Seq<F32>, U64, Seq<U16>, Seq<U16>,)> {
        match U16::spec_parse(s, p) {
            Err(e) => Err(e),
            Ok((unk42, p1)) => 
            match RVec::<F32>::spec_parse(s, p1) {
                Err(e) => Err(e),
                Ok((stats, p2)) => 
                match spec_items::<F32>(s, p2, stats.len() as nat) {
                    Err(e) => Err(e),
                    Ok((stats2, p3)) => 
                    match U64::spec_parse(s, p3) {
                        Err(e) => Err(e),
                        Ok((unk45, p4)) => 
                        match RVec::<U16>::spec_parse(s, p4) {
                            Err(e) => Err(e),
                            Ok((talents, p5)) => 
                            match RVec::<U16>::spec_parse(s, p5) {
                                Err(e) => Err(e),
                                Ok((unk47, p6)) => 
                                Ok(((unk42, stats, stats2, unk45, talents, unk47,), p6))
                            }
                        }
                    }
                }
            }
        }
}

/// The bytes of fields `unk42`, `stats`, `stats2`, `unk45`, `talents`, `unk47` of [`PlayerData`].
#[verifier::opaque]
pub open spec fn ser_player_data_part7(v: PlayerDataView) -> Seq<u8> {
    (((((U16::spec_ser(v.unk42)) + (RVec::<F32>::spec_ser(v.stats))) + (ser_items::<F32>(v.stats2))) + (U64::spec_ser(v.unk45))) + (RVec::<U16>::spec_ser(v.talents))) + (RVec::<U16>::spec_ser(v.unk47))
}

#[verifier::opaque]
pub open spec fn wf_player_data_part7(v: PlayerDataView) -> bool {
    U16::spec_wf(v.unk42) && RVec::<F32>::spec_wf(v.stats) && v.stats2.len() == v.stats.len() && (forall|k: int| 0 <= k < v.stats2.len() ==> F32::spec_wf(#[trigger] v.stats2[k])) && U64::spec_wf(v.unk45) && RVec::<U16>::spec_wf(v.talents) && RVec::<U16>::spec_wf(v.unk47)
}

#[verifier::spinoff_prover]
#[verifier::rlimit(100)]
proof fn lemma_player_data_part7(v: PlayerDataView, s: Seq<u8>, p: int)
    requires
        wf_player_data_part7(v),
        0 <= p,
        p + ser_player_data_part7(v).len() <= s.len(),
        s.subrange(p, p + ser_player_data_part7(v).len()) == ser_player_data_part7(v),
    ensures
        spec_player_data_part7(s, p) == Ok::<((U16, Seq<F32>, Seq<F32>, U64, Seq<U16>, Seq<U16>,), int), BinError>(((v.unk42, v.stats, v.stats2, v.unk45, v.talents, v.unk47,), p + ser_player_data_part7(v).len())),
{
    reveal(spec_player_data_part7);
    reveal(ser_player_data_part7);
    reveal(wf_player_data_part7);
        let b0 = U16::spec_ser(v.unk42);
        let b1 = RVec::<F32>::spec_ser(v.stats);
        let b2 = ser_items::<F32>(v.stats2);
        let b3 = U64::spec_ser(v.unk45);
        let b4 = RVec::<U16>::spec_ser(v.talents);
        let b5 = RVec::<U16>::spec_ser(v.unk47);
        let a0 = b0;
        let a1 = a0 + b1;
        let a2 = a1 + b2;
        let a3 = a2 + b3;
        let a4 = a3 + b4;
        let a5 = a4 + b5;
        lemma_subrange_prefix(s, p, a4, b5);
        lemma_subrange_prefix(s, p, a3, b4);
        lemma_subrange_prefix(s, p, a2, b3);
        lemma_subrange_prefix(s, p, a1, b2);
        lemma_subrange_prefix(s, p, a0, b1);
        U16::lemma_roundtrip(v.unk42, s, p);
        RVec::<F32>::lemma_roundtrip(v.stats, s, p + a0.len());
        lemma_items_roundtrip::<F32>(v.stats2, s, p + a1.len());
        U64::lemma_roundtrip(v.unk45, s, p + a2.len());
        RVec::<U16>::lemma_roundtrip(v.talents, s, p + a3.len());
        RVec::<U16>::lemma_roundtrip(v.unk47, s, p + a4.len());
}

fn parse_player_data_part7(data: &[u8], p: usize) -> (r: Result<((U16, RVec<F32>, Vec<F32>, U64, RVec<U16>, RVec<U16>,), usize), BinError>)
    requires
        p <= data@.len(),
    ensures
        r matches Ok((_, q)) ==> p <= q <= data@.len(),
        match r {
            Ok((x, q)) => spec_player_data_part7(data@, p as int) == Ok::<((U16, Seq<F32>, Seq<F32>, U64, Seq<U16>, Seq<U16>,), int), BinError>(((x.0@, x.1@, x.2@, x.3@, x.4@, x.5@,), q as int)),
            Err(e) => spec_player_data_part7(data@, p as int) == Err::<((U16, Seq<F32>, Seq<F32>, U64, Seq<U16>, Seq<U16>,), int), BinError>(e),
        },
{
    reveal(spec_player_data_part7);
        let (unk42, p1) = U16::parse(data, p)?;
        let (stats, p2) = RVec::<F32>::parse(data, p1)?;
        let (stats2, p3) = parse_items::<F32>(data, p2, stats.data.len())?;
        assert(stats2@.map_values(|x: F32| x@) =~= stats2@);
        let (unk45, p4) = U64::parse(data, p3)?;
        let (talents, p5) = RVec::<U16>::parse(data, p4)?;
        let (unk47, p6) = RVec::<U16>::parse(data, p5)?;
        Ok(((unk42, stats, stats2, unk45, talents, unk47,), p6))
}

impl PlayerData {
    fn write_player_data_part7(&self, out: &mut Vec<u8>)
        ensures
            final(out)@ == old(out)@ + ser_player_data_part7(self@),
    {
        reveal(ser_player_data_part7);
            self.unk42.write(out);
            self.stats.write(out);
            write_items::<F32>(out, &self.stats2);
            assert(self.stats2@.map_values(|x: F32| x@) =~= self.stats2@);
            self.unk45.write(out);
            self.talents.write(out);
            self.unk47.write(out);
        assert(final(out)@ =~= old(out)@ + ser_player_data_part7(self@));
    }
}

/// Reading fields `unk48`, `unk49`, `unk50`, `unk51`, `unk52`, `unk53` of [`PlayerData`].
#[verifier::opaque]
pub open spec fn spec_player_data_part8(s: Seq<u8>, p: int) -> SpecRead<(U64, F32, F32, U16, U16, U32,)> {
        match U64::spec_parse(s, p) {
            Err(e) => Err(e),
            Ok((unk48, p1)) => 
            match F32::spec_parse(s, p1) {
                Err(e) => Err(e),
                Ok((unk49, p2)) => 
                match F32::spec_parse(s, p2) {
                    Err(e) => Err(e),
                    Ok((unk50, p3)) => 
                    match U16::spec_parse(s, p3) {
                        Err(e) => Err(e),
                        Ok((unk51, p4)) => 
                        match U16::spec_parse(s, p4) {
                            Err(e) => Err(e),
                            Ok((unk52, p5)) => 
                            match U32::spec_parse(s, p5) {
                                Err(e) => Err(e),
                                Ok((unk53, p6)) => 
                                Ok(((unk48, unk49, unk50, unk51, unk52, unk53,), p6))
                            }
                        }
                    }
                }
            }
        }
}

/// The bytes of fields `unk48`, `unk49`, `unk50`, `unk51`, `unk52`, `unk53` of [`PlayerData`].
#[verifier::opaque]
pub open spec fn ser_player_data_part8(v: PlayerDataView) -> Seq<u8> {
    (((((U64::spec_ser(v.unk48)) + (F32::spec_ser(v.unk49))) + (F32::spec_ser(v.unk50))) + (U16::spec_ser(v.unk51))) + (U16::spec_ser(v.unk52))) + (U32::spec_ser(v.unk53))
}

#[verifier::opaque]
pub open spec fn wf_player_data_part8(v: PlayerDataView) -> bool {
    U64::spec_wf(v.unk48) && F32::spec_wf(v.unk49) && F32::spec_wf(v.unk50) && U16::spec_wf(v.unk51) && U16::spec_wf(v.unk52) && U32::spec_wf(v.unk53)
}

#[verifier::spinoff_prover]
#[verifier::rlimit(100)]
proof fn lemma_player_data_part8(v: PlayerDataView, s: Seq<u8>, p: int)
    requires
        wf_player_data_part8(v),
        0 <= p,
        p + ser_player_data_part8(v).len() <= s.len(),
        s.subrange(p, p + ser_player_data_part8(v).len()) == ser_player_data_part8(v),
    ensures
        spec_player_data_part8(s, p) == Ok::<((U64, F32, F32, U16, U16, U32,), int), BinError>(((v.unk48, v.unk49, v.unk50, v.unk51, v.unk52, v.unk53,), p + ser_player_data_part8(v).len())),
{
    reveal(spec_player_data_part8);
    reveal(ser_player_data_part8);
    reveal(wf_player_data_part8);
        let b0 = U64::spec_ser(v.unk48);
        let b1 = F32::spec_ser(v.unk49);
        let b2 = F32::spec_ser(v.unk50);
        let b3 = U16::spec_ser(v.unk51);
        let b4 = U16::spec_ser(v.unk52);
        let b5 = U32::spec_ser(v.unk53);
        let a0 = b0;
        let a1 = a0 + b1;
        let a2 = a1 + b2;
        let a3 = a2 + b3;
        let a4 = a3 + b4;
        let a5 = a4 + b5;
        lemma_subrange_prefix(s, p, a4, b5);
        lemma_subrange_prefix(s, p, a3, b4);
        lemma_subrange_prefix(s, p, a2, b3);
        lemma_subrange_prefix(s, p, a1, b2);
        lemma_subrange_prefix(s, p, a0, b1);
        U64::lemma_roundtrip(v.unk48, s, p);
        F32::lemma_roundtrip(v.unk49, s, p + a0.len());
        F32::lemma_roundtrip(v.unk50, s, p + a1.len());
        U16::lemma_roundtrip(v.unk51, s, p + a2.len());
        U16::lemma_roundtrip(v.unk52, s, p + a3.len());
        U32::lemma_roundtrip(v.unk53, s, p + a4.len());
}

fn parse_player_data_part8(data: &[u8], p: usize) -> (r: Result<((U64, F32, F32, U16, U16, U32,), usize), BinError>)
    requires
        p <= data@.len(),
    ensures
        r matches Ok((_, q)) ==> p <= q <= data@.len(),
        match r {
            Ok((x, q)) => spec_player_data_part8(data@, p as int) == Ok::<((U64, F32, F32, U16, U16, U32,), int), BinError>(((x.0@, x.1@, x.2@, x.3@, x.4@, x.5@,), q as int)),
            Err(e) => spec_player_data_part8(data@, p as int) == Err::<((U64, F32, F32, U16, U16, U32,), int), BinError>(e),
        },
{
    reveal(spec_player_data_part8);
        let (unk48, p1) = U64::parse(data, p)?;
        let (unk49, p2) = F32::parse(data, p1)?;
        let (unk50, p3) = F32::parse(data, p2)?;
        let (unk51, p4) = U16::parse(data, p3)?;
        let (unk52, p5) = U16::parse(data, p4)?;
        let (unk53, p6) = U32::parse(data, p5)?;
        Ok(((unk48, unk49, unk50, unk51, unk52, unk53,), p6))
}

impl PlayerData {
    fn write_player_data_part8(&self, out: &mut Vec<u8>)
        ensures
            final(out)@ == old(out)@ + ser_player_data_part8(self@),
    {
        reveal(ser_player_data_part8);
            self.unk48.write(out);
            self.unk49.write(out);
            self.unk50.write(out);
            self.unk51.write(out);
            self.unk52.write(out);
            self.unk53.write(out);
        assert(final(out)@ =~= old(out)@ + ser_player_data_part8(self@));
    }
}

/// Reading fields `unk54`, `unk55`, `unk56` of [`PlayerData`].
#[verifier::opaque]
pub open spec fn spec_player_data_part9(s: Seq<u8>, p: int) -> SpecRead<(U32, U32, Seq<U16>,)> {
        match U32::spec_parse(s, p) {
            Err(e) => Err(e),
            Ok((unk54, p1)) => 
            match U32::spec_parse(s, p1) {
                Err(e) => Err(e),
                Ok((unk55, p2)) => 
                match U16::spec_parse(s, p2) {
                    Err(e) => Err(e),
                    Ok((unk56_0, p3)) => 
                    match U16::spec_parse(s, p3) {
                        Err(e) => Err(e),
                        Ok((unk56_1, p4)) => 
                        match U16::spec_parse(s, p4) {
                            Err(e) => Err(e),
                            Ok((unk56_2, p5)) => 
                            match U16::spec_parse(s, p5) {
                                Err(e) => Err(e),
                                Ok((unk56_3, p6)) => 
                                { let unk56 = seq![unk56_0, unk56_1, unk56_2, unk56_3]; 
                                Ok(((unk54, unk55, unk56,), p6))}
                            }
                        }
                    }
                }
            }
        }
}

/// The bytes of fields `unk54`, `unk55`, `unk56` of [`PlayerData`].
#[verifier::opaque]
pub open spec fn ser_player_data_part9(v: PlayerDataView) -> Seq<u8> {
    (((((U32::spec_ser(v.unk54)) + (U32::spec_ser(v.unk55))) + (U16::spec_ser(v.unk56[0]))) + (U16::spec_ser(v.unk56[1]))) + (U16::spec_ser(v.unk56[2]))) + (U16::spec_ser(v.unk56[3]))
}

#[verifier::opaque]
pub open spec fn wf_player_data_part9(v: PlayerDataView) -> bool {
    U32::spec_wf(v.unk54) && U32::spec_wf(v.unk55) && v.unk56.len() == 4
}

#[verifier::spinoff_prover]
#[verifier::rlimit(100)]
proof fn lemma_player_data_part9(v: PlayerDataView, s: Seq<u8>, p: int)
    requires
        wf_player_data_part9(v),
        0 <= p,
        p + ser_player_data_part9(v).len() <= s.len(),
        s.subrange(p, p + ser_player_data_part9(v).len()) == ser_player_data_part9(v),
    ensures
        spec_player_data_part9(s, p) == Ok::<((U32, U32, Seq<U16>,), int), BinError>(((v.unk54, v.unk55, v.unk56,), p + ser_player_data_part9(v).len())),
{
    reveal(spec_player_data_part9);
    reveal(ser_player_data_part9);
    reveal(wf_player_data_part9);
        let b0 = U32::spec_ser(v.unk54);
        let b1 = U32::spec_ser(v.unk55);
        let b2 = U16::spec_ser(v.unk56[0]);
        let b3 = U16::spec_ser(v.unk56[1]);
        let b4 = U16::spec_ser(v.unk56[2]);
        let b5 = U16::spec_ser(v.unk56[3]);
        let a0 = b0;
        let a1 = a0 + b1;
        let a2 = a1 + b2;
        let a3 = a2 + b3;
        let a4 = a3 + b4;
        let a5 = a4 + b5;
        lemma_subrange_prefix(s, p, a4, b5);
        lemma_subrange_prefix(s, p, a3, b4);
        lemma_subrange_prefix(s, p, a2, b3);
        lemma_subrange_prefix(s, p, a1, b2);
        lemma_subrange_prefix(s, p, a0, b1);
        U32::lemma_roundtrip(v.unk54, s, p);
        U32::lemma_roundtrip(v.unk55, s, p + a0.len());
        U16::lemma_roundtrip(v.unk56[0], s, p + a1.len());
        U16::lemma_roundtrip(v.unk56[1], s, p + a2.len());
        U16::lemma_roundtrip(v.unk56[2], s, p + a3.len());
        U16::lemma_roundtrip(v.unk56[3], s, p + a4.len());
        assert(seq![v.unk56[0], v.unk56[1], v.unk56[2], v.unk56[3]] =~= v.unk56);
}

fn parse_player_data_part9(data: &[u8], p: usize) -> (r: Result<((U32, U32, [U16; 4],), usize), BinError>)
    requires
        p <= data@.len(),
    ensures
        r matches Ok((_, q)) ==> p <= q <= data@.len(),
        match r {
            Ok((x, q)) => spec_player_data_part9(data@, p as int) == Ok::<((U32, U32, Seq<U16>,), int), BinError>(((x.0@, x.1@, x.2@,), q as int)),
            Err(e) => spec_player_data_part9(data@, p as int) == Err::<((U32, U32, Seq<U16>,), int), BinError>(e),
        },
{
    reveal(spec_player_data_part9);
        let (unk54, p1) = U32::parse(data, p)?;
        let (unk55, p2) = U32::parse(data, p1)?;
        let (unk56_0, p3) = U16::parse(data, p2)?;
        let (unk56_1, p4) = U16::parse(data, p3)?;
        let (unk56_2, p5) = U16::parse(data, p4)?;
        let (unk56_3, p6) = U16::parse(data, p5)?;
        let unk56 = [unk56_0, unk56_1, unk56_2, unk56_3];
        assert(unk56@ =~= seq![unk56_0@, unk56_1@, unk56_2@, unk56_3@]);
        Ok(((unk54, unk55, unk56,), p6))
}

impl PlayerData {
    fn write_player_data_part9(&self, out: &mut Vec<u8>)
        ensures
            final(out)@ == old(out)@ + ser_player_data_part9(self@),
    {
        reveal(ser_player_data_part9);
            self.unk54.write(out);
            self.unk55.write(out);
            self.unk56[0].write(out);
            self.unk56[1].write(out);
            self.unk56[2].write(out);
            self.unk56[3].write(out);
        assert(final(out)@ =~= old(out)@ + ser_player_data_part9(self@));
    }
}

/// Reading fields `unk57`, `unk58`, `unk59` of [`PlayerData`].
#[verifier::opaque]
pub open spec fn spec_player_data_part10(s: Seq<u8>, p: int) -> SpecRead<(U16, Seq<U16>, U16,)> {
        match U16::spec_parse(s, p) {
            Err(e) => Err(e),
            Ok((unk57, p1)) => 
            match U16::spec_parse(s, p1) {
                Err(e) => Err(e),
                Ok((unk58_0, p2)) => 
                match U16::spec_parse(s, p2) {
                    Err(e) => Err(e),
                    Ok((unk58_1, p3)) => 
                    match U16::spec_parse(s, p3) {
                        Err(e) => Err(e),
                        Ok((unk58_2, p4)) => 
                        match U16::spec_parse(s, p4) {
                            Err(e) => Err(e),
                            Ok((unk58_3, p5)) => 
                            { let unk58 = seq![unk58_0, unk58_1, unk58_2, unk58_3]; 
                            match U16::spec_parse(s, p5) {
                                Err(e) => Err(e),
                                Ok((unk59, p6)) => 
                                Ok(((unk57, unk58, unk59,), p6))}
                            }
                        }
                    }
                }
            }
        }
}

/// The bytes of fields `unk57`, `unk58`, `unk59` of [`PlayerData`].
#[verifier::opaque]
pub open spec fn ser_player_data_part10(v: PlayerDataView) -> Seq<u8> {
    (((((U16::spec_ser(v.unk57)) + (U16::spec_ser(v.unk58[0]))) + (U16::spec_ser(v.unk58[1]))) + (U16::spec_ser(v.unk58[2]))) + (U16::spec_ser(v.unk58[3]))) + (U16::spec_ser(v.unk59))
}

#[verifier::opaque]
pub open spec fn wf_player_data_part10(v: PlayerDataView) -> bool {
    U16::spec_wf(v.unk57) && v.unk58.len() == 4 && U16::spec_wf(v.unk59)
}

#[verifier::spinoff_prover]
#[verifier::rlimit(100)]
proof fn lemma_player_data_part10(v: PlayerDataView, s: Seq<u8>, p: int)
    requires
        wf_player_data_part10(v),
        0 <= p,
        p + ser_player_data_part10(v).len() <= s.len(),
        s.subrange(p, p + ser_player_data_part10(v).len()) == ser_player_data_part10(v),
    ensures
        spec_player_data_part10(s, p) == Ok::<((U16, Seq<U16>, U16,), int), BinError>(((v.unk57, v.unk58, v.unk59,), p + ser_player_data_part10(v).len())),
{
    reveal(spec_player_data_part10);
    reveal(ser_player_data_part10);
    reveal(wf_player_data_part10);
        let b0 = U16::spec_ser(v.unk57);
        let b1 = U16::spec_ser(v.unk58[0]);
        let b2 = U16::spec_ser(v.unk58[1]);
        let b3 = U16::spec_ser(v.unk58[2]);
        let b4 = U16::spec_ser(v.unk58[3]);
        let b5 = U16::spec_ser(v.unk59);
        let a0 = b0;
        let a1 = a0 + b1;
        let a2 = a1 + b2;
        let a3 = a2 + b3;
        let a4 = a3 + b4;
        let a5 = a4 + b5;
        lemma_subrange_prefix(s, p, a4, b5);
        lemma_subrange_prefix(s, p, a3, b4);
        lemma_subrange_prefix(s, p, a2, b3);
        lemma_subrange_prefix(s, p, a1, b2);
        lemma_subrange_prefix(s, p, a0, b1);
        U16::lemma_roundtrip(v.unk57, s, p);
        U16::lemma_roundtrip(v.unk58[0], s, p + a0.len());
        U16::lemma_roundtrip(v.unk58[1], s, p + a1.len());
        U16::lemma_roundtrip(v.unk58[2], s, p + a2.len());
        U16::lemma_roundtrip(v.unk58[3], s, p + a3.len());
        U16::lemma_roundtrip(v.unk59, s, p + a4.len());
        assert(seq![v.unk58[0], v.unk58[1], v.unk58[2], v.unk58[3]] =~= v.unk58);
}

fn parse_player_data_part10(data: &[u8], p: usize) -> (r: Result<((U16, [U16; 4], U16,), usize), BinError>)
    requires
        p <= data@.len(),
    ensures
        r matches Ok((_, q)) ==> p <= q <= data@.len(),
        match r {
            Ok((x, q)) => spec_player_data_part10(data@, p as int) == Ok::<((U16, Seq<U16>, U16,), int), BinError>(((x.0@, x.1@, x.2@,), q as int)),
            Err(e) => spec_player_data_part10(data@, p as int) == Err::<((U16, Seq<U16>, U16,), int), BinError>(e),
        },
{
    reveal(spec_player_data_part10);
        let (unk57, p1) = U16::parse(data, p)?;
        let (unk58_0, p2) = U16::parse(data, p1)?;
        let (unk58_1, p3) = U16::parse(data, p2)?;
        let (unk58_2, p4) = U16::parse(data, p3)?;
        let (unk58_3, p5) = U16::parse(data, p4)?;
        let unk58 = [unk58_0, unk58_1, unk58_2, unk58_3];
        assert(unk58@ =~= seq![unk58_0@, unk58_1@, unk58_2@, unk58_3@]);
        let (unk59, p6) = U16::parse(data, p5)?;
        Ok(((unk57, unk58, unk59,), p6))
}

impl PlayerData {
    fn write_player_data_part10(&self, out: &mut Vec<u8>)
        ensures
            final(out)@ == old(out)@ + ser_player_data_part10(self@),
    {
        reveal(ser_player_data_part10);
            self.unk57.write(out);
            self.unk58[0].write(out);
            self.unk58[1].write(out);
            self.unk58[2].write(out);
            self.unk58[3].write(out);
            self.unk59.write(out);
        assert(final(out)@ =~= old(out)@ + ser_player_data_part10(self@));
    }
}

/// Reading fields `unk60`, `unk61`, `ach_data` of [`PlayerData`].
#[verifier::opaque]
pub open spec fn spec_player_data_part11(s: Seq<u8>, p: int) -> SpecRead<(Seq<u16>, U8, Seq<u8>,)> {
        match CurrencyData::spec_parse(s, p) {
            Err(e) => Err(e),
            Ok((unk60, p1)) => 
            match U8::spec_parse(s, p1) {
                Err(e) => Err(e),
                Ok((unk61, p2)) => 
                match RZlib::spec_parse(s, p2) {
                    Err(e) => Err(e),
                    Ok((ach_data, p3)) => 
                    Ok(((unk60, unk61, ach_data,), p3))
                }
            }
        }
}

/// The bytes of fields `unk60`, `unk61`, `ach_data` of [`PlayerData`].
#[verifier::opaque]
pub open spec fn ser_player_data_part11(v: PlayerDataView) -> Seq<u8> {
    ((CurrencyData::spec_ser(v.unk60)) + (U8::spec_ser(v.unk61))) + (RZlib::spec_ser(v.ach_data))
}

#[verifier::opaque]
pub open spec fn wf_player_data_part11(v: PlayerDataView) -> bool {
    CurrencyData::spec_wf(v.unk60) && U8::spec_wf(v.unk61) && RZlib::spec_wf(v.ach_data)
}

#[verifier::spinoff_prover]
#[verifier::rlimit(100)]
proof fn lemma_player_data_part11(v: PlayerDataView, s: Seq<u8>, p: int)
    requires
        wf_player_data_part11(v),
        0 <= p,
        p + ser_player_data_part11(v).len() <= s.len(),
        s.subrange(p, p + ser_player_data_part11(v).len()) == ser_player_data_part11(v),
    ensures
        spec_player_data_part11(s, p) == Ok::<((Seq<u16>, U8, Seq<u8>,), int), BinError>(((v.unk60, v.unk61, v.ach_data,), p + ser_player_data_part11(v).len())),
{
    reveal(spec_player_data_part11);
    reveal(ser_player_data_part11);
    reveal(wf_player_data_part11);
        let b0 = CurrencyData::spec_ser(v.unk60);
        let b1 = U8::spec_ser(v.unk61);
        let b2 = RZlib::spec_ser(v.ach_data);
        let a0 = b0;
        let a1 = a0 + b1;
        let a2 = a1 + b2;
        lemma_subrange_prefix(s, p, a1, b2);
        lemma_subrange_prefix(s, p, a0, b1);
        CurrencyData::lemma_roundtrip(v.unk60, s, p);
        U8::lemma_roundtrip(v.unk61, s, p + a0.len());
        RZlib::lemma_roundtrip(v.ach_data, s, p + a1.len());
}

fn parse_player_data_part11(data: &[u8], p: usize) -> (r: Result<((CurrencyData, U8, RZlib,), usize), BinError>)
    requires
        p <= data@.len(),
    ensures
        r matches Ok((_, q)) ==> p <= q <= data@.len(),
        match r {
            Ok((x, q)) => spec_player_data_part11(data@, p as int) == Ok::<((Seq<u16>, U8, Seq<u8>,), int), BinError>(((x.0@, x.1@, x.2@,), q as int)),
            Err(e) => spec_player_data_part11(data@, p as int) == Err::<((Seq<u16>, U8, Seq<u8>,), int), BinError>(e),
        },
{
    reveal(spec_player_data_part11);
        let (unk60, p1) = CurrencyData::parse(data, p)?;
        let (unk61, p2) = U8::parse(data, p1)?;
        let (ach_data, p3) = RZlib::parse(data, p2)?;
        Ok(((unk60, unk61, ach_data,), p3))
}

impl PlayerData {
    fn write_player_data_part11(&self, out: &mut Vec<u8>)
        ensures
            final(out)@ == old(out)@ + ser_player_data_part11(self@),
    {
        reveal(ser_player_data_part11);
            self.unk60.write(out);
            self.unk61.write(out);
            self.ach_data.write(out);
        assert(final(out)@ =~= old(out)@ + ser_player_data_part11(self@));
    }
}

impl Wire for PlayerData {
    open spec fn spec_parse(s: Seq<u8>, p: int) -> SpecRead<PlayerDataView> {
        match spec_player_data_part0(s, p) {
            Err(e) => Err(e),
            Ok((t0, q0)) => 
            match spec_player_data_part1(s, q0) {
                Err(e) => Err(e),
                Ok((t1, q1)) => 
                match spec_player_data_part2(s, q1) {
                    Err(e) => Err(e),
                    Ok((t2, q2)) => 
                    match spec_player_data_part3(s, q2) {
                        Err(e) => Err(e),
                        Ok((t3, q3)) => 
                        match spec_player_data_part4(s, q3) {
                            Err(e) => Err(e),
                            Ok((t4, q4)) => 
                            match spec_player_data_part5(s, q4) {
                                Err(e) => Err(e),
                                Ok((t5, q5)) => 
                                match spec_player_data_part6(s, q5) {
                                    Err(e) => Err(e),
                                    Ok((t6, q6)) => 
                                    match spec_player_data_part7(s, q6) {
                                        Err(e) => Err(e),
                                        Ok((t7, q7)) => 
                                        match spec_player_data_part8(s, q7) {
                                            Err(e) => Err(e),
                                            Ok((t8, q8)) => 
                                            match spec_player_data_part9(s, q8) {
                                                Err(e) => Err(e),
                                                Ok((t9, q9)) => 
                                                match spec_player_data_part10(s, q9) {
                                                    Err(e) => Err(e),
                                                    Ok((t10, q10)) => 
                                                    match spec_player_data_part11(s, q10) {
                                                        Err(e) => Err(e),
                                                        Ok((t11, q11)) => 
                                                        Ok((PlayerDataView { unk0: t0.0, id: t0.1, class: t0.2, level: t0.3, unk4: t0.4, unk5: t0.5, unk6: t1.0, name: t1.1, hp: t1.2, mp: t1.3, location_id: t1.4, coords: t1.5, unk13: t2.0, rot: t2.1, unk15: t2.2, alive: t2.3, unk17: t2.4, unk18: t2.5, unk19: t3.0, body: t3.1, hp2: t3.2, mp2: t3.3, movspeed: t3.4, unk24: t3.5, unk25: t4.0, unk26: t4.1, unk27: t4.2, unk28: t4.3, unk29: t4.4, unk30: t4.5, unk31: t5.0, unk32: t5.1, unk33: t5.2, unk34: t5.3, unk35: t5.4, unk36: t5.5, unk37: t6.0, unk38: t6.1, effects: t6.2, unk39: t6.3, current_exp: t6.4, unk41: t6.5, unk42: t7.0, stats: t7.1, stats2: t7.2, unk45: t7.3, talents: t7.4, unk47: t7.5, unk48: t8.0, unk49: t8.1, unk50: t8.2, unk51: t8.3, unk52: t8.4, unk53: t8.5, unk54: t9.0, unk55: t9.1, unk56: t9.2, unk57: t10.0, unk58: t10.1, unk59: t10.2, unk60: t11.0, unk61: t11.1, ach_data: t11.2 }, q11))
                                                    }
                                                }
                                            }
                                        }
                                    }
                                }
                            }
                        }
                    }
                }
            }
        }
    }

    open spec fn spec_ser(v: PlayerDataView) -> Seq<u8> {
        (((((((((((ser_player_data_part0(v)) + (ser_player_data_part1(v))) + (ser_player_data_part2(v))) + (ser_player_data_part3(v))) + (ser_player_data_part4(v))) + (ser_player_data_part5(v))) + (ser_player_data_part6(v))) + (ser_player_data_part7(v))) + (ser_player_data_part8(v))) + (ser_player_data_part9(v))) + (ser_player_data_part10(v))) + (ser_player_data_part11(v))
    }

    open spec fn spec_wf(v: PlayerDataView) -> bool {
        wf_player_data_part0(v) && wf_player_data_part1(v) && wf_player_data_part2(v) && wf_player_data_part3(v) && wf_player_data_part4(v) && wf_player_data_part5(v) && wf_player_data_part6(v) && wf_player_data_part7(v) && wf_player_data_part8(v) && wf_player_data_part9(v) && wf_player_data_part10(v) && wf_player_data_part11(v)
    }

    fn parse(data: &[u8], p: usize) -> (r: Result<(Self, usize), BinError>) {
        let (t0, q0) = parse_player_data_part0(data, p)?;
        let (t1, q1) = parse_player_data_part1(data, q0)?;
        let (t2, q2) = parse_player_data_part2(data, q1)?;
        let (t3, q3) = parse_player_data_part3(data, q2)?;
        let (t4, q4) = parse_player_data_part4(data, q3)?;
        let (t5, q5) = parse_player_data_part5(data, q4)?;
        let (t6, q6) = parse_player_data_part6(data, q5)?;
        let (t7, q7) = parse_player_data_part7(data, q6)?;
        let (t8, q8) = parse_player_data_part8(data, q7)?;
        let (t9, q9) = parse_player_data_part9(data, q8)?;
        let (t10, q10) = parse_player_data_part10(data, q9)?;
        let (t11, q11) = parse_player_data_part11(data, q10)?;
        Ok((PlayerData { unk0: t0.0, id: t0.1, class: t0.2, level: t0.3, unk4: t0.4, unk5: t0.5, unk6: t1.0, name: t1.1, hp: t1.2, mp: t1.3, location_id: t1.4, coords: t1.5, unk13: t2.0, rot: t2.1, unk15: t2.2, alive: t2.3, unk17: t2.4, unk18: t2.5, unk19: t3.0, body: t3.1, hp2: t3.2, mp2: t3.3, movspeed: t3.4, unk24: t3.5, unk25: t4.0, unk26: t4.1, unk27: t4.2, unk28: t4.3, unk29: t4.4, unk30: t4.5, unk31: t5.0, unk32: t5.1, unk33: t5.2, unk34: t5.3, unk35: t5.4, unk36: t5.5, unk37: t6.0, unk38: t6.1, effects: t6.2, unk39: t6.3, current_exp: t6.4, unk41: t6.5, unk42: t7.0, stats: t7.1, stats2: t7.2, unk45: t7.3, talents: t7.4, unk47: t7.5, unk48: t8.0, unk49: t8.1, unk50: t8.2, unk51: t8.3, unk52: t8.4, unk53: t8.5, unk54: t9.0, unk55: t9.1, unk56: t9.2, unk57: t10.0, unk58: t10.1, unk59: t10.2, unk60: t11.0, unk61: t11.1, ach_data: t11.2 }, q11))
    }

    fn write(&self, out: &mut Vec<u8>) {
        self.write_player_data_part0(out);
        self.write_player_data_part1(out);
        self.write_player_data_part2(out);
        self.write_player_data_part3(out);
        self.write_player_data_part4(out);
        self.write_player_data_part5(out);
        self.write_player_data_part6(out);
        self.write_player_data_part7(out);
        self.write_player_data_part8(out);
        self.write_player_data_part9(out);
        self.write_player_data_part10(out);
        self.write_player_data_part11(out);
        assert(final(out)@ =~= old(out)@ + Self::spec_ser(self@));
    }

    proof fn lemma_roundtrip(v: PlayerDataView, s: Seq<u8>, p: int) {
        let b0 = ser_player_data_part0(v);
        let b1 = ser_player_data_part1(v);
        let b2 = ser_player_data_part2(v);
        let b3 = ser_player_data_part3(v);
        let b4 = ser_player_data_part4(v);
        let b5 = ser_player_data_part5(v);
        let b6 = ser_player_data_part6(v);
        let b7 = ser_player_data_part7(v);
        let b8 = ser_player_data_part8(v);
        let b9 = ser_player_data_part9(v);
        let b10 = ser_player_data_part10(v);
        let b11 = ser_player_data_part11(v);
        let a0 = b0;
        let a1 = a0 + b1;
        let a2 = a1 + b2;
        let a3 = a2 + b3;
        let a4 = a3 + b4;
        let a5 = a4 + b5;
        let a6 = a5 + b6;
        let a7 = a6 + b7;
        let a8 = a7 + b8;
        let a9 = a8 + b9;
        let a10 = a9 + b10;
        let a11 = a10 + b11;
        lemma_subrange_prefix(s, p, a10, b11);
        lemma_subrange_prefix(s, p, a9, b10);
        lemma_subrange_prefix(s, p, a8, b9);
        lemma_subrange_prefix(s, p, a7, b8);
        lemma_subrange_prefix(s, p, a6, b7);
        lemma_subrange_prefix(s, p, a5, b6);
        lemma_subrange_prefix(s, p, a4, b5);
        lemma_subrange_prefix(s, p, a3, b4);
        lemma_subrange_prefix(s, p, a2, b3);
        lemma_subrange_prefix(s, p, a1, b2);
        lemma_subrange_prefix(s, p, a0, b1);
        lemma_player_data_part0(v, s, p);
        lemma_player_data_part1(v, s, p + a0.len());
        lemma_player_data_part2(v, s, p + a1.len());
        lemma_player_data_part3(v, s, p + a2.len());
        lemma_player_data_part4(v, s, p + a3.len());
        lemma_player_data_part5(v, s, p + a4.len());
        lemma_player_data_part6(v, s, p + a5.len());
        lemma_player_data_part7(v, s, p + a6.len());
        lemma_player_data_part8(v, s, p + a7.len());
        lemma_player_data_part9(v, s, p + a8.len());
        lemma_player_data_part10(v, s, p + a9.len());
        lemma_player_data_part11(v, s, p + a10.len());
    }
}


#[derive(Debug, Clone, PartialEq, Eq)]
pub struct EnterWorldRequest {
    pub char_idx: U8,
}

/// Mathematical form of [`EnterWorldRequest`].
pub struct EnterWorldRequestView {
    pub char_idx: U8,
}

impl View for EnterWorldRequest {
    type V = EnterWorldRequestView;

    open spec fn view(&self) -> EnterWorldRequestView {
        EnterWorldRequestView {
            char_idx: self.char_idx@,
        }
    }
}

impl Wire for EnterWorldRequest {
    open spec fn spec_parse(s: Seq<u8>, p: int) -> SpecRead<EnterWorldRequestView> {
        match U8::spec_parse(s, p) {
            Err(e) => Err(e),
            Ok((char_idx, p1)) => 
            Ok((EnterWorldRequestView { char_idx }, p1))
        }
    }

    open spec fn spec_ser(v: EnterWorldRequestView) -> Seq<u8> {
        U8::spec_ser(v.char_idx)
    }

    open spec fn spec_wf(v: EnterWorldRequestView) -> bool {
        U8::spec_wf(v.char_idx)
    }

    fn parse(data: &[u8], p: usize) -> (r: Result<(Self, usize), BinError>) {
        let (char_idx, p1) = U8::parse(data, p)?;
        Ok((EnterWorldRequest { char_idx }, p1))
    }

    fn write(&self, out: &mut Vec<u8>) {
        self.char_idx.write(out);
        assert(final(out)@ =~= old(out)@ + Self::spec_ser(self@));
    }

    #[verifier::spinoff_prover]
    #[verifier::rlimit(50)]
    proof fn lemma_roundtrip(v: EnterWorldRequestView, s: Seq<u8>, p: int) {
        let b0 = U8::spec_ser(v.char_idx);
        let a0 = b0;
        U8::lemma_roundtrip(v.char_idx, s, p);
    }
}


#[derive(Debug, Clone, PartialEq, Eq)]
pub struct EnterWorldResponse {
    pub unk: U16,
}

/// Mathematical form of [`EnterWorldResponse`].
pub struct EnterWorldResponseView {
    pub unk: U16,
}

impl View for EnterWorldResponse {
    type V = EnterWorldResponseView;

    open spec fn view(&self) -> EnterWorldResponseView {
        EnterWorldResponseView {
            unk: self.unk@,
        }
    }
}

impl Wire for EnterWorldResponse {
    open spec fn spec_parse(s: Seq<u8>, p: int) -> SpecRead<EnterWorldResponseView> {
        match U16::spec_parse(s, p) {
            Err(e) => Err(e),
            Ok((unk, p1)) => 
            Ok((EnterWorldResponseView { unk }, p1))
        }
    }

    open spec fn spec_ser(v: EnterWorldResponseView) -> Seq<u8> {
        U16::spec_ser(v.unk)
    }

    open spec fn spec_wf(v: EnterWorldResponseView) -> bool {
        U16::spec_wf(v.unk)
    }

    fn parse(data: &[u8], p: usize) -> (r: Result<(Self, usize), BinError>) {
        let (unk, p1) = U16::parse(data, p)?;
        Ok((EnterWorldResponse { unk }, p1))
    }

    fn write(&self, out: &mut Vec<u8>) {
        self.unk.write(out);
        assert(final(out)@ =~= old(out)@ + Self::spec_ser(self@));
    }

    #[verifier::spinoff_prover]
    #[verifier::rlimit(50)]
    proof fn lemma_roundtrip(v: EnterWorldResponseView, s: Seq<u8>, p: int) {
        let b0 = U16::spec_ser(v.unk);
        let a0 = b0;
        U16::lemma_roundtrip(v.unk, s, p);
    }
}


#[derive(Debug, Clone, PartialEq, Eq)]
pub struct Inventory {
    pub unk0: U8,
    /// Equals to vec len?
    pub unk1: U16,
    pub items: RVec<ItemDesc>,
}

/// Mathematical form of [`Inventory`].
pub struct InventoryView {
    pub unk0: U8,
    pub unk1: U16,
    pub items: Seq<ItemDescView>,
}

impl View for Inventory {
    type V = InventoryView;

    open spec fn view(&self) -> InventoryView {
        InventoryView {
            unk0: self.unk0@,
            unk1: self.unk1@,
            items: self.items@,
        }
    }
}

impl Wire for Inventory {
    open spec fn spec_parse(s: Seq<u8>, p: int) -> SpecRead<InventoryView> {
        match U8::spec_parse(s, p) {
            Err(e) => Err(e),
            Ok((unk0, p1)) => 
            match U16::spec_parse(s, p1) {
                Err(e) => Err(e),
                Ok((unk1, p2)) => 
                match RVec::<ItemDesc>::spec_parse(s, p2) {
                    Err(e) => Err(e),
                    Ok((items, p3)) => 
                    Ok((InventoryView { unk0, unk1, items }, p3))
                }
            }
        }
    }

    open spec fn spec_ser(v: InventoryView) -> Seq<u8> {
        ((U8::spec_ser(v.unk0)) + (U16::spec_ser(v.unk1))) + (RVec::<ItemDesc>::spec_ser(v.items))
    }

    open spec fn spec_wf(v: InventoryView) -> bool {
        U8::spec_wf(v.unk0) && U16::spec_wf(v.unk1) && RVec::<ItemDesc>::spec_wf(v.items)
    }

    fn parse(data: &[u8], p: usize) -> (r: Result<(Self, usize), BinError>) {
        let (unk0, p1) = U8::parse(data, p)?;
        let (unk1, p2) = U16::parse(data, p1)?;
        let (items, p3) = RVec::<ItemDesc>::parse(data, p2)?;
        Ok((Inventory { unk0, unk1, items }, p3))
    }

    fn write(&self, out: &mut Vec<u8>) {
        self.unk0.write(out);
        self.unk1.write(out);
        self.items.write(out);
        assert(final(out)@ =~= old(out)@ + Self::spec_ser(self@));
    }

    #[verifier::spinoff_prover]
    #[verifier::rlimit(50)]
    proof fn lemma_roundtrip(v: InventoryView, s: Seq<u8>, p: int) {
        let b0 = U8::spec_ser(v.unk0);
        let b1 = U16::spec_ser(v.unk1);
        let b2 = RVec::<ItemDesc>::spec_ser(v.items);
        let a0 = b0;
        let a1 = a0 + b1;
        let a2 = a1 + b2;
        lemma_subrange_prefix(s, p, a1, b2);
        lemma_subrange_prefix(s, p, a0, b1);
        U8::lemma_roundtrip(v.unk0, s, p);
        U16::lemma_roundtrip(v.unk1, s, p + a0.len());
        RVec::<ItemDesc>::lemma_roundtrip(v.items, s, p + a1.len());
    }
}


#[derive(Debug, Clone, PartialEq, Eq)]
pub struct ItemDesc {
    pub slot: InvSlot,
    pub id: U32,
    pub count: U16,
    pub flags: U32,
    pub unk5: Option<U32>,
    pub unk6: Option<U64>,
    pub ext: Option<ItemDescExt>,
}

/// Mathematical form of [`ItemDesc`].
pub struct ItemDescView {
    pub slot: InvSlot,
    pub id: U32,
    pub count: U16,
    pub flags: U32,
    pub unk5: Option<U32>,
    pub unk6: Option<U64>,
    pub ext: Option<ItemDescExtView>,
}

impl View for ItemDesc {
    type V = ItemDescView;

    open spec fn view(&self) -> ItemDescView {
        ItemDescView {
            slot: self.slot@,
            id: self.id@,
            count: self.count@,
            flags: self.flags@,
            unk5: opt_view(self.unk5),
            unk6: opt_view(self.unk6),
            ext: opt_view(self.ext),
        }
    }
}

impl Wire for ItemDesc {
    open spec fn spec_parse(s: Seq<u8>, p: int) -> SpecRead<ItemDescView> {
        match InvSlot::spec_parse(s, p) {
            Err(e) => Err(e),
            Ok((slot, p1)) => 
            match U32::spec_parse(s, p1) {
                Err(e) => Err(e),
                Ok((id, p2)) => 
                match U16::spec_parse(s, p2) {
                    Err(e) => Err(e),
                    Ok((count, p3)) => 
                    match U32::spec_parse(s, p3) {
                        Err(e) => Err(e),
                        Ok((flags, p4)) => 
                        match (if false { match U32::spec_parse(s, p4) { Ok((x, q)) => Ok((Some(x), q)), Err(e) => Err(e) } } else { Ok((None, p4)) }) {
                            Err(e) => Err(e),
                            Ok((unk5, p5)) => 
                            match (if flags.0 & 0x2000 != 0 { match U64::spec_parse(s, p5) { Ok((x, q)) => Ok((Some(x), q)), Err(e) => Err(e) } } else { Ok((None, p5)) }) {
                                Err(e) => Err(e),
                                Ok((unk6, p6)) => 
                                match (if flags.0 & 0x8000 != 0 { match ItemDescExt::spec_parse(s, p6) { Ok((x, q)) => Ok((Some(x), q)), Err(e) => Err(e) } } else { Ok((None, p6)) }) {
                                    Err(e) => Err(e),
                                    Ok((ext, p7)) => 
                                    Ok((ItemDescView { slot, id, count, flags, unk5, unk6, ext }, p7))
                                }
                            }
                        }
                    }
                }
            }
        }
    }

    open spec fn spec_ser(v: ItemDescView) -> Seq<u8> {
        ((((((InvSlot::spec_ser(v.slot)) + (U32::spec_ser(v.id))) + (U16::spec_ser(v.count))) + (U32::spec_ser(v.flags))) + (match v.unk5 { Some(x) => U32::spec_ser(x), None => Seq::empty() })) + (match v.unk6 { Some(x) => U64::spec_ser(x), None => Seq::empty() })) + (match v.ext { Some(x) => ItemDescExt::spec_ser(x), None => Seq::empty() })
    }

    open spec fn spec_wf(v: ItemDescView) -> bool {
        InvSlot::spec_wf(v.slot) && U32::spec_wf(v.id) && U16::spec_wf(v.count) && U32::spec_wf(v.flags) && v.unk5 is None && (v.unk6 is Some <==> v.flags.0 & 0x2000 != 0) && (v.unk6 matches Some(x) ==> U64::spec_wf(x)) && (v.ext is Some <==> v.flags.0 & 0x8000 != 0) && (v.ext matches Some(x) ==> ItemDescExt::spec_wf(x))
    }

    fn parse(data: &[u8], p: usize) -> (r: Result<(Self, usize), BinError>) {
        let (slot, p1) = InvSlot::parse(data, p)?;
        let (id, p2) = U32::parse(data, p1)?;
        let (count, p3) = U16::parse(data, p2)?;
        let (flags, p4) = U32::parse(data, p3)?;
        let (unk5, p5) = if false {
            let (x, q) = U32::parse(data, p4)?;
            (Some(x), q)
        } else {
            (None, p4)
        };
        let (unk6, p6) = if flags.0 & 0x2000 != 0 {
            let (x, q) = U64::parse(data, p5)?;
            (Some(x), q)
        } else {
            (None, p5)
        };
        let (ext, p7) = if flags.0 & 0x8000 != 0 {
            let (x, q) = ItemDescExt::parse(data, p6)?;
            (Some(x), q)
        } else {
            (None, p6)
        };
        Ok((ItemDesc { slot, id, count, flags, unk5, unk6, ext }, p7))
    }

    fn write(&self, out: &mut Vec<u8>) {
        self.slot.write(out);
        self.id.write(out);
        self.count.write(out);
        self.flags.write(out);
        if let Some(x) = &self.unk5 {
            x.write(out);
        }
        if let Some(x) = &self.unk6 {
            x.write(out);
        }
        if let Some(x) = &self.ext {
            x.write(out);
        }
        assert(final(out)@ =~= old(out)@ + Self::spec_ser(self@));
    }

    #[verifier::spinoff_prover]
    #[verifier::rlimit(50)]
    proof fn lemma_roundtrip(v: ItemDescView, s: Seq<u8>, p: int) {
        let b0 = InvSlot::spec_ser(v.slot);
        let b1 = U32::spec_ser(v.id);
        let b2 = U16::spec_ser(v.count);
        let b3 = U32::spec_ser(v.flags);
        let b4 = match v.unk5 { Some(x) => U32::spec_ser(x), None => Seq::empty() };
        let b5 = match v.unk6 { Some(x) => U64::spec_ser(x), None => Seq::empty() };
        let b6 = match v.ext { Some(x) => ItemDescExt::spec_ser(x), None => Seq::empty() };
        let a0 = b0;
        let a1 = a0 + b1;
        let a2 = a1 + b2;
        let a3 = a2 + b3;
        let a4 = a3 + b4;
        let a5 = a4 + b5;
        let a6 = a5 + b6;
        lemma_subrange_prefix(s, p, a5, b6);
        lemma_subrange_prefix(s, p, a4, b5);
        lemma_subrange_prefix(s, p, a3, b4);
        lemma_subrange_prefix(s, p, a2, b3);
        lemma_subrange_prefix(s, p, a1, b2);
        lemma_subrange_prefix(s, p, a0, b1);
        InvSlot::lemma_roundtrip(v.slot, s, p);
        U32::lemma_roundtrip(v.id, s, p + a0.len());
        U16::lemma_roundtrip(v.count, s, p + a1.len());
        U32::lemma_roundtrip(v.flags, s, p + a2.len());
        if let Some(x) = v.unk5 { U32::lemma_roundtrip(x, s, p + a3.len()); }
        if let Some(x) = v.unk6 { U64::lemma_roundtrip(x, s, p + a4.len()); }
        if let Some(x) = v.ext { ItemDescExt::lemma_roundtrip(x, s, p + a5.len()); }
    }
}


#[derive(Debug, Clone, PartialEq, Eq)]
pub struct ItemDescExt {
    /// 1992 is special
    pub unk0: U32,
    pub unk1: U32,
    pub unk2: U32,
    pub unk3: U16,
    pub unk4: U8,
    pub unk5: U8,
    pub unk6: U32,
    pub unk7: U8,
    pub unk8: U32,
}

/// Mathematical form of [`ItemDescExt`].
pub struct ItemDescExtView {
    pub unk0: U32,
    pub unk1: U32,
    pub unk2: U32,
    pub unk3: U16,
    pub unk4: U8,
    pub unk5: U8,
    pub unk6: U32,
    pub unk7: U8,
    pub unk8: U32,
}

impl View for ItemDescExt {
    type V = ItemDescExtView;

    open spec fn view(&self) -> ItemDescExtView {
        ItemDescExtView {
            unk0: self.unk0@,
            unk1: self.unk1@,
            unk2: self.unk2@,
            unk3: self.unk3@,
            unk4: self.unk4@,
            unk5: self.unk5@,
            unk6: self.unk6@,
            unk7: self.unk7@,
            unk8: self.unk8@,
        }
    }
}

impl Wire for ItemDescExt {
    open spec fn spec_parse(s: Seq<u8>, p: int) -> SpecRead<ItemDescExtView> {
        match U32::spec_parse(s, p) {
            Err(e) => Err(e),
            Ok((unk0, p1)) => 
            match U32::spec_parse(s, p1) {
                Err(e) => Err(e),
                Ok((unk1, p2)) => 
                match U32::spec_parse(s, p2) {
                    Err(e) => Err(e),
                    Ok((unk2, p3)) => 
                    match U16::spec_parse(s, p3) {
                        Err(e) => Err(e),
                        Ok((unk3, p4)) => 
                        match U8::spec_parse(s, p4) {
                            Err(e) => Err(e),
                            Ok((unk4, p5)) => 
                            match U8::spec_parse(s, p5) {
                                Err(e) => Err(e),
                                Ok((unk5, p6)) => 
                                match U32::spec_parse(s, p6) {
                                    Err(e) => Err(e),
                                    Ok((unk6, p7)) => 
                                    match U8::spec_parse(s, p7) {
                                        Err(e) => Err(e),
                                        Ok((unk7, p8)) => 
                                        match U32::spec_parse(s, p8) {
                                            Err(e) => Err(e),
                                            Ok((unk8, p9)) => 
                                            Ok((ItemDescExtView { unk0, unk1, unk2, unk3, unk4, unk5, unk6, unk7, unk8 }, p9))
                                        }
                                    }
                                }
                            }
                        }
                    }
                }
            }
        }
    }

    open spec fn spec_ser(v: ItemDescExtView) -> Seq<u8> {
        ((((((((U32::spec_ser(v.unk0)) + (U32::spec_ser(v.unk1))) + (U32::spec_ser(v.unk2))) + (U16::spec_ser(v.unk3))) + (U8::spec_ser(v.unk4))) + (U8::spec_ser(v.unk5))) + (U32::spec_ser(v.unk6))) + (U8::spec_ser(v.unk7))) + (U32::spec_ser(v.unk8))
    }

    open spec fn spec_wf(v: ItemDescExtView) -> bool {
        U32::spec_wf(v.unk0) && U32::spec_wf(v.unk1) && U32::spec_wf(v.unk2) && U16::spec_wf(v.unk3) && U8::spec_wf(v.unk4) && U8::spec_wf(v.unk5) && U32::spec_wf(v.unk6) && U8::spec_wf(v.unk7) && U32::spec_wf(v.unk8)
    }

    fn parse(data: &[u8], p: usize) -> (r: Result<(Self, usize), BinError>) {
        let (unk0, p1) = U32::parse(data, p)?;
        let (unk1, p2) = U32::parse(data, p1)?;
        let (unk2, p3) = U32::parse(data, p2)?;
        let (unk3, p4) = U16::parse(data, p3)?;
        let (unk4, p5) = U8::parse(data, p4)?;
        let (unk5, p6) = U8::parse(data, p5)?;
        let (unk6, p7) = U32::parse(data, p6)?;
        let (unk7, p8) = U8::parse(data, p7)?;
        let (unk8, p9) = U32::parse(data, p8)?;
        Ok((ItemDescExt { unk0, unk1, unk2, unk3, unk4, unk5, unk6, unk7, unk8 }, p9))
    }

    fn write(&self, out: &mut Vec<u8>) {
        self.unk0.write(out);
        self.unk1.write(out);
        self.unk2.write(out);
        self.unk3.write(out);
        self.unk4.write(out);
        self.unk5.write(out);
        self.unk6.write(out);
        self.unk7.write(out);
        self.unk8.write(out);
        assert(final(out)@ =~= old(out)@ + Self::spec_ser(self@));
    }

    #[verifier::spinoff_prover]
    #[verifier::rlimit(50)]
    proof fn lemma_roundtrip(v: ItemDescExtView, s: Seq<u8>, p: int) {
        let b0 = U32::spec_ser(v.unk0);
        let b1 = U32::spec_ser(v.unk1);
        let b2 = U32::spec_ser(v.unk2);
        let b3 = U16::spec_ser(v.unk3);
        let b4 = U8::spec_ser(v.unk4);
        let b5 = U8::spec_ser(v.unk5);
        let b6 = U32::spec_ser(v.unk6);
        let b7 = U8::spec_ser(v.unk7);
        let b8 = U32::spec_ser(v.unk8);
        let a0 = b0;
        let a1 = a0 + b1;
        let a2 = a1 + b2;
        let a3 = a2 + b3;
        let a4 = a3 + b4;
        let a5 = a4 + b5;
        let a6 = a5 + b6;
        let a7 = a6 + b7;
        let a8 = a7 + b8;
        lemma_subrange_prefix(s, p, a7, b8);
        lemma_subrange_prefix(s, p, a6, b7);
        lemma_subrange_prefix(s, p, a5, b6);
        lemma_subrange_prefix(s, p, a4, b5);
        lemma_subrange_prefix(s, p, a3, b4);
        lemma_subrange_prefix(s, p, a2, b3);
        lemma_subrange_prefix(s, p, a1, b2);
        lemma_subrange_prefix(s, p, a0, b1);
        U32::lemma_roundtrip(v.unk0, s, p);
        U32::lemma_roundtrip(v.unk1, s, p + a0.len());
        U32::lemma_roundtrip(v.unk2, s, p + a1.len());
        U16::lemma_roundtrip(v.unk3, s, p + a2.len());
        U8::lemma_roundtrip(v.unk4, s, p + a3.len());
        U8::lemma_roundtrip(v.unk5, s, p + a4.len());
        U32::lemma_roundtrip(v.unk6, s, p + a5.len());
        U8::lemma_roundtrip(v.unk7, s, p + a6.len());
        U32::lemma_roundtrip(v.unk8, s, p + a7.len());
    }
}


#[derive(Debug, Clone, PartialEq, Eq)]
pub struct HeartbeatClient {
    pub id: U32,
    pub framerate: U32,
    pub unk0: U32,
    pub mb_ping: U32,
    pub unk: [U32; 2],
}

/// Mathematical form of [`HeartbeatClient`].
pub struct HeartbeatClientView {
    pub id: U32,
    pub framerate: U32,
    pub unk0: U32,
    pub mb_ping: U32,
    pub unk: Seq<U32>,
}

impl View for HeartbeatClient {
    type V = HeartbeatClientView;

    open spec fn view(&self) -> HeartbeatClientView {
        HeartbeatClientView {
            id: self.id@,
            framerate: self.framerate@,
            unk0: self.unk0@,
            mb_ping: self.mb_ping@,
            unk: self.unk@,
        }
    }
}

impl Wire for HeartbeatClient {
    open spec fn spec_parse(s: Seq<u8>, p: int) -> SpecRead<HeartbeatClientView> {
        match U32::spec_parse(s, p) {
            Err(e) => Err(e),
            Ok((id, p1)) => 
            match U32::spec_parse(s, p1) {
                Err(e) => Err(e),
                Ok((framerate, p2)) => 
                match U32::spec_parse(s, p2) {
                    Err(e) => Err(e),
                    Ok((unk0, p3)) => 
                    match U32::spec_parse(s, p3) {
                        Err(e) => Err(e),
                        Ok((mb_ping, p4)) => 
                        match U32::spec_parse(s, p4) {
                            Err(e) => Err(e),
                            Ok((unk_0, p5)) => 
                            match U32::spec_parse(s, p5) {
                                Err(e) => Err(e),
                                Ok((unk_1, p6)) => 
                                { let unk = seq![unk_0, unk_1]; 
                                Ok((HeartbeatClientView { id, framerate, unk0, mb_ping, unk }, p6))}
                            }
                        }
                    }
                }
            }
        }
    }

    open spec fn spec_ser(v: HeartbeatClientView) -> Seq<u8> {
        (((((U32::spec_ser(v.id)) + (U32::spec_ser(v.framerate))) + (U32::spec_ser(v.unk0))) + (U32::spec_ser(v.mb_ping))) + (U32::spec_ser(v.unk[0]))) + (U32::spec_ser(v.unk[1]))
    }

    open spec fn spec_wf(v: HeartbeatClientView) -> bool {
        U32::spec_wf(v.id) && U32::spec_wf(v.framerate) && U32::spec_wf(v.unk0) && U32::spec_wf(v.mb_ping) && v.unk.len() == 2
    }

    fn parse(data: &[u8], p: usize) -> (r: Result<(Self, usize), BinError>) {
        let (id, p1) = U32::parse(data, p)?;
        let (framerate, p2) = U32::parse(data, p1)?;
        let (unk0, p3) = U32::parse(data, p2)?;
        let (mb_ping, p4) = U32::parse(data, p3)?;
        let (unk_0, p5) = U32::parse(data, p4)?;
        let (unk_1, p6) = U32::parse(data, p5)?;
        let unk = [unk_0, unk_1];
        assert(unk@ =~= seq![unk_0@, unk_1@]);
        Ok((HeartbeatClient { id, framerate, unk0, mb_ping, unk }, p6))
    }

    fn write(&self, out: &mut Vec<u8>) {
        self.id.write(out);
        self.framerate.write(out);
        self.unk0.write(out);
        self.mb_ping.write(out);
        self.unk[0].write(out);
        self.unk[1].write(out);
        assert(final(out)@ =~= old(out)@ + Self::spec_ser(self@));
    }

    #[verifier::spinoff_prover]
    #[verifier::rlimit(50)]
    proof fn lemma_roundtrip(v: HeartbeatClientView, s: Seq<u8>, p: int) {
        let b0 = U32::spec_ser(v.id);
        let b1 = U32::spec_ser(v.framerate);
        let b2 = U32::spec_ser(v.unk0);
        let b3 = U32::spec_ser(v.mb_ping);
        let b4 = U32::spec_ser(v.unk[0]);
        let b5 = U32::spec_ser(v.unk[1]);
        let a0 = b0;
        let a1 = a0 + b1;
        let a2 = a1 + b2;
        let a3 = a2 + b3;
        let a4 = a3 + b4;
        let a5 = a4 + b5;
        lemma_subrange_prefix(s, p, a4, b5);
        lemma_subrange_prefix(s, p, a3, b4);
        lemma_subrange_prefix(s, p, a2, b3);
        lemma_subrange_prefix(s, p, a1, b2);
        lemma_subrange_prefix(s, p, a0, b1);
        U32::lemma_roundtrip(v.id, s, p);
        U32::lemma_roundtrip(v.framerate, s, p + a0.len());
        U32::lemma_roundtrip(v.unk0, s, p + a1.len());
        U32::lemma_roundtrip(v.mb_ping, s, p + a2.len());
        U32::lemma_roundtrip(v.unk[0], s, p + a3.len());
        U32::lemma_roundtrip(v.unk[1], s, p + a4.len());
        assert(seq![v.unk[0], v.unk[1]] =~= v.unk);
    }
}


#[derive(Debug, Clone, PartialEq, Eq)]
pub struct HeartbeatServer {
    pub id: U32,
    /// Probably server uptime, milliseconds
    pub time: U32,
}

/// Mathematical form of [`HeartbeatServer`].
pub struct HeartbeatServerView {
    pub id: U32,
    pub time: U32,
}

impl View for HeartbeatServer {
    type V = HeartbeatServerView;

    open spec fn view(&self) -> HeartbeatServerView {
        HeartbeatServerView {
            id: self.id@,
            time: self.time@,
        }
    }
}

impl Wire for HeartbeatServer {
    open spec fn spec_parse(s: Seq<u8>, p: int) -> SpecRead<HeartbeatServerView> {
        match U32::spec_parse(s, p) {
            Err(e) => Err(e),
            Ok((id, p1)) => 
            match U32::spec_parse(s, p1) {
                Err(e) => Err(e),
                Ok((time, p2)) => 
                Ok((HeartbeatServerView { id, time }, p2))
            }
        }
    }

    open spec fn spec_ser(v: HeartbeatServerView) -> Seq<u8> {
        (U32::spec_ser(v.id)) + (U32::spec_ser(v.time))
    }

    open spec fn spec_wf(v: HeartbeatServerView) -> bool {
        U32::spec_wf(v.id) && U32::spec_wf(v.time)
    }

    fn parse(data: &[u8], p: usize) -> (r: Result<(Self, usize), BinError>) {
        let (id, p1) = U32::parse(data, p)?;
        let (time, p2) = U32::parse(data, p1)?;
        Ok((HeartbeatServer { id, time }, p2))
    }

    fn write(&self, out: &mut Vec<u8>) {
        self.id.write(out);
        self.time.write(out);
        assert(final(out)@ =~= old(out)@ + Self::spec_ser(self@));
    }

    #[verifier::spinoff_prover]
    #[verifier::rlimit(50)]
    proof fn lemma_roundtrip(v: HeartbeatServerView, s: Seq<u8>, p: int) {
        let b0 = U32::spec_ser(v.id);
        let b1 = U32::spec_ser(v.time);
        let a0 = b0;
        let a1 = a0 + b1;
        lemma_subrange_prefix(s, p, a0, b1);
        U32::lemma_roundtrip(v.id, s, p);
        U32::lemma_roundtrip(v.time, s, p + a0.len());
    }
}


#[derive(Debug, Clone, PartialEq, Eq)]
pub struct CharacterMove {
    pub coords: Coords,
    /// Flags:
    /// 0x20 - stop
    /// 0x200 - ?
    /// 0x2 - cursor is being held
    /// 0x1 - target changed
    pub flags: U16,
    /// Seems to be move direction from 0 to 65535, where 0 is lower-mid
    pub direction: U16,
    /// Another direction, always sent when char starts to move
    pub dir2: Option<U8>,
    pub unk4: Option<U8>,
}

/// Mathematical form of [`CharacterMove`].
pub struct CharacterMoveView {
    pub coords: CoordsView,
    pub flags: U16,
    pub direction: U16,
    pub dir2: Option<U8>,
    pub unk4: Option<U8>,
}

impl View for CharacterMove {
    type V = CharacterMoveView;

    open spec fn view(&self) -> CharacterMoveView {
        CharacterMoveView {
            coords: self.coords@,
            flags: self.flags@,
            direction: self.direction@,
            dir2: opt_view(self.dir2),
            unk4: opt_view(self.unk4),
        }
    }
}

impl Wire for CharacterMove {
    open spec fn spec_parse(s: Seq<u8>, p: int) -> SpecRead<CharacterMoveView> {
        match Coords::spec_parse(s, p) {
            Err(e) => Err(e),
            Ok((coords, p1)) => 
            match U16::spec_parse(s, p1) {
                Err(e) => Err(e),
                Ok((flags, p2)) => 
                match U16::spec_parse(s, p2) {
                    Err(e) => Err(e),
                    Ok((direction, p3)) => 
                    match (if flags.0 & 0x200 != 0 { match U8::spec_parse(s, p3) { Ok((x, q)) => Ok((Some(x), q)), Err(e) => Err(e) } } else { Ok((None, p3)) }) {
                        Err(e) => Err(e),
                        Ok((dir2, p4)) => 
                        match (if flags.0 & 0x200 != 0 { match U8::spec_parse(s, p4) { Ok((x, q)) => Ok((Some(x), q)), Err(e) => Err(e) } } else { Ok((None, p4)) }) {
                            Err(e) => Err(e),
                            Ok((unk4, p5)) => 
                            Ok((CharacterMoveView { coords, flags, direction, dir2, unk4 }, p5))
                        }
                    }
                }
            }
        }
    }

    open spec fn spec_ser(v: CharacterMoveView) -> Seq<u8> {
        ((((Coords::spec_ser(v.coords)) + (U16::spec_ser(v.flags))) + (U16::spec_ser(v.direction))) + (match v.dir2 { Some(x) => U8::spec_ser(x), None => Seq::empty() })) + (match v.unk4 { Some(x) => U8::spec_ser(x), None => Seq::empty() })
    }

    open spec fn spec_wf(v: CharacterMoveView) -> bool {
        Coords::spec_wf(v.coords) && U16::spec_wf(v.flags) && U16::spec_wf(v.direction) && (v.dir2 is Some <==> v.flags.0 & 0x200 != 0) && (v.dir2 matches Some(x) ==> U8::spec_wf(x)) && (v.unk4 is Some <==> v.flags.0 & 0x200 != 0) && (v.unk4 matches Some(x) ==> U8::spec_wf(x))
    }

    fn parse(data: &[u8], p: usize) -> (r: Result<(Self, usize), BinError>) {
        let (coords, p1) = Coords::parse(data, p)?;
        let (flags, p2) = U16::parse(data, p1)?;
        let (direction, p3) = U16::parse(data, p2)?;
        let (dir2, p4) = if flags.0 & 0x200 != 0 {
            let (x, q) = U8::parse(data, p3)?;
            (Some(x), q)
        } else {
            (None, p3)
        };
        let (unk4, p5) = if flags.0 & 0x200 != 0 {
            let (x, q) = U8::parse(data, p4)?;
            (Some(x), q)
        } else {
            (None, p4)
        };
        Ok((CharacterMove { coords, flags, direction, dir2, unk4 }, p5))
    }

    fn write(&self, out: &mut Vec<u8>) {
        self.coords.write(out);
        self.flags.write(out);
        self.direction.write(out);
        if let Some(x) = &self.dir2 {
            x.write(out);
        }
        if let Some(x) = &self.unk4 {
            x.write(out);
        }
        assert(final(out)@ =~= old(out)@ + Self::spec_ser(self@));
    }

    #[verifier::spinoff_prover]
    #[verifier::rlimit(50)]
    proof fn lemma_roundtrip(v: CharacterMoveView, s: Seq<u8>, p: int) {
        let b0 = Coords::spec_ser(v.coords);
        let b1 = U16::spec_ser(v.flags);
        let b2 = U16::spec_ser(v.direction);
        let b3 = match v.dir2 { Some(x) => U8::spec_ser(x), None => Seq::empty() };
        let b4 = match v.unk4 { Some(x) => U8::spec_ser(x), None => Seq::empty() };
        let a0 = b0;
        let a1 = a0 + b1;
        let a2 = a1 + b2;
        let a3 = a2 + b3;
        let a4 = a3 + b4;
        lemma_subrange_prefix(s, p, a3, b4);
        lemma_subrange_prefix(s, p, a2, b3);
        lemma_subrange_prefix(s, p, a1, b2);
        lemma_subrange_prefix(s, p, a0, b1);
        Coords::lemma_roundtrip(v.coords, s, p);
        U16::lemma_roundtrip(v.flags, s, p + a0.len());
        U16::lemma_roundtrip(v.direction, s, p + a1.len());
        if let Some(x) = v.dir2 { U8::lemma_roundtrip(x, s, p + a2.len()); }
        if let Some(x) = v.unk4 { U8::lemma_roundtrip(x, s, p + a3.len()); }
    }
}


#[derive(Debug, Clone, PartialEq, Eq)]
pub struct MobEntity {
    pub id: U32,
    pub mob_id: U16,
    pub level: U16,
    pub custom_name: RString,
    pub hp: U32,
    pub coords: Coords,
    pub unk2: U8,
    pub unk3: F32,
    pub scale: F32,
    pub unk5: U32,
    pub unk6: U32,
    pub max_hp: U32,
    pub unk8: F32,
    pub unk9: U16,
    pub unk10: U32,
    pub unk11: RBool,
    pub unk12: U32,
    pub unk13: U32,
}

/// Mathematical form of [`MobEntity`].
pub struct MobEntityView {
    pub id: U32,
    pub mob_id: U16,
    pub level: U16,
    pub custom_name: Seq<char>,
    pub hp: U32,
    pub coords: CoordsView,
    pub unk2: U8,
    pub unk3: F32,
    pub scale: F32,
    pub unk5: U32,
    pub unk6: U32,
    pub max_hp: U32,
    pub unk8: F32,
    pub unk9: U16,
    pub unk10: U32,
    pub unk11: RBool,
    pub unk12: U32,
    pub unk13: U32,
}

impl View for MobEntity {
    type V = MobEntityView;

    open spec fn view(&self) -> MobEntityView {
        MobEntityView {
            id: self.id@,
            mob_id: self.mob_id@,
            level: self.level@,
            custom_name: self.custom_name@,
            hp: self.hp@,
            coords: self.coords@,
            unk2: self.unk2@,
            unk3: self.unk3@,
            scale: self.scale@,
            unk5: self.unk5@,
            unk6: self.unk6@,
            max_hp: self.max_hp@,
            unk8: self.unk8@,
            unk9: self.unk9@,
            unk10: self.unk10@,
            unk11: self.unk11@,
            unk12: self.unk12@,
            unk13: self.unk13@,
        }
    }
}

/// Reading fields `id`, `mob_id`, `level`, `custom_name`, `hp`, `coords` of [`MobEntity`].
#[verifier::opaque]
pub open spec fn spec_mob_entity_part0(s: Seq<u8>, p: int) -> SpecRead<(U32, U16, U16, Seq<char>, U32, CoordsView,)> {
        match U32::spec_parse(s, p) {
            Err(e) => Err(e),
            Ok((id, p1)) => 
            match U16::spec_parse(s, p1) {
                Err(e) => Err(e),
                Ok((mob_id, p2)) => 
                match U16::spec_parse(s, p2) {
                    Err(e) => Err(e),
                    Ok((level, p3)) => 
                    match RString::spec_parse(s, p3) {
                        Err(e) => Err(e),
                        Ok((custom_name, p4)) => 
                        match U32::spec_parse(s, p4) {
                            Err(e) => Err(e),
                            Ok((hp, p5)) => 
                            match Coords::spec_parse(s, p5) {
                                Err(e) => Err(e),
                                Ok((coords, p6)) => 
                                Ok(((id, mob_id, level, custom_name, hp, coords,), p6))
                            }
                        }
                    }
                }
            }
        }
}

/// The bytes of fields `id`, `mob_id`, `level`, `custom_name`, `hp`, `coords` of [`MobEntity`].
#[verifier::opaque]
pub open spec fn ser_mob_entity_part0(v: MobEntityView) -> Seq<u8> {
    (((((U32::spec_ser(v.id)) + (U16::spec_ser(v.mob_id))) + (U16::spec_ser(v.level))) + (RString::spec_ser(v.custom_name))) + (U32::spec_ser(v.hp))) + (Coords::spec_ser(v.coords))
}

#[verifier::opaque]
pub open spec fn wf_mob_entity_part0(v: MobEntityView) -> bool {
    U32::spec_wf(v.id) && U16::spec_wf(v.mob_id) && U16::spec_wf(v.level) && RString::spec_wf(v.custom_name) && U32::spec_wf(v.hp) && Coords::spec_wf(v.coords)
}

#[verifier::spinoff_prover]
#[verifier::rlimit(100)]
proof fn lemma_mob_entity_part0(v: MobEntityView, s: Seq<u8>, p: int)
    requires
        wf_mob_entity_part0(v),
        0 <= p,
        p + ser_mob_entity_part0(v).len() <= s.len(),
        s.subrange(p, p + ser_mob_entity_part0(v).len()) == ser_mob_entity_part0(v),
    ensures
        spec_mob_entity_part0(s, p) == Ok::<((U32, U16, U16, Seq<char>, U32, CoordsView,), int), BinError>(((v.id, v.mob_id, v.level, v.custom_name, v.hp, v.coords,), p + ser_mob_entity_part0(v).len())),
{
    reveal(spec_mob_entity_part0);
    reveal(ser_mob_entity_part0);
    reveal(wf_mob_entity_part0);
        let b0 = U32::spec_ser(v.id);
        let b1 = U16::spec_ser(v.mob_id);
        let b2 = U16::spec_ser(v.level);
        let b3 = RString::spec_ser(v.custom_name);
        let b4 = U32::spec_ser(v.hp);
        let b5 = Coords::spec_ser(v.coords);
        let a0 = b0;
        let a1 = a0 + b1;
        let a2 = a1 + b2;
        let a3 = a2 + b3;
        let a4 = a3 + b4;
        let a5 = a4 + b5;
        lemma_subrange_prefix(s, p, a4, b5);
        lemma_subrange_prefix(s, p, a3, b4);
        lemma_subrange_prefix(s, p, a2, b3);
        lemma_subrange_prefix(s, p, a1, b2);
        lemma_subrange_prefix(s, p, a0, b1);
        U32::lemma_roundtrip(v.id, s, p);
        U16::lemma_roundtrip(v.mob_id, s, p + a0.len());
        U16::lemma_roundtrip(v.level, s, p + a1.len());
        RString::lemma_roundtrip(v.custom_name, s, p + a2.len());
        U32::lemma_roundtrip(v.hp, s, p + a3.len());
        Coords::lemma_roundtrip(v.coords, s, p + a4.len());
}

fn parse_mob_entity_part0(data: &[u8], p: usize) -> (r: Result<((U32, U16, U16, RString, U32, Coords,), usize), BinError>)
    requires
        p <= data@.len(),
    ensures
        r matches Ok((_, q)) ==> p <= q <= data@.len(),
        match r {
            Ok((x, q)) => spec_mob_entity_part0(data@, p as int) == Ok::<((U32, U16, U16, Seq<char>, U32, CoordsView,), int), BinError>(((x.0@, x.1@, x.2@, x.3@, x.4@, x.5@,), q as int)),
            Err(e) => spec_mob_entity_part0(data@, p as int) == Err::<((U32, U16, U16, Seq<char>, U32, CoordsView,), int), BinError>(e),
        },
{
    reveal(spec_mob_entity_part0);
        let (id, p1) = U32::parse(data, p)?;
        let (mob_id, p2) = U16::parse(data, p1)?;
        let (level, p3) = U16::parse(data, p2)?;
        let (custom_name, p4) = RString::parse(data, p3)?;
        let (hp, p5) = U32::parse(data, p4)?;
        let (coords, p6) = Coords::parse(data, p5)?;
        Ok(((id, mob_id, level, custom_name, hp, coords,), p6))
}

impl MobEntity {
    fn write_mob_entity_part0(&self, out: &mut Vec<u8>)
        ensures
            final(out)@ == old(out)@ + ser_mob_entity_part0(self@),
    {
        reveal(ser_mob_entity_part0);
            self.id.write(out);
            self.mob_id.write(out);
            self.level.write(out);
            self.custom_name.write(out);
            self.hp.write(out);
            self.coords.write(out);
        assert(final(out)@ =~= old(out)@ + ser_mob_entity_part0(self@));
    }
}

/// Reading fields `unk2`, `unk3`, `scale`, `unk5`, `unk6`, `max_hp` of [`MobEntity`].
#[verifier::opaque]
pub open spec fn spec_mob_entity_part1(s: Seq<u8>, p: int) -> SpecRead<(U8, F32, F32, U32, U32, U32,)> {
        match U8::spec_parse(s, p) {
            Err(e) => Err(e),
            Ok((unk2, p1)) => 
            match F32::spec_parse(s, p1) {
                Err(e) => Err(e),
                Ok((unk3, p2)) => 
                match F32::spec_parse(s, p2) {
                    Err(e) => Err(e),
                    Ok((scale, p3)) => 
                    match U32::spec_parse(s, p3) {
                        Err(e) => Err(e),
                        Ok((unk5, p4)) => 
                        match U32::spec_parse(s, p4) {
                            Err(e) => Err(e),
                            Ok((unk6, p5)) => 
                            match U32::spec_parse(s, p5) {
                                Err(e) => Err(e),
                                Ok((max_hp, p6)) => 
                                Ok(((unk2, unk3, scale, unk5, unk6, max_hp,), p6))
                            }
                        }
                    }
                }
            }
        }
}

/// The bytes of fields `unk2`, `unk3`, `scale`, `unk5`, `unk6`, `max_hp` of [`MobEntity`].
#[verifier::opaque]
pub open spec fn ser_mob_entity_part1(v: MobEntityView) -> Seq<u8> {
    (((((U8::spec_ser(v.unk2)) + (F32::spec_ser(v.unk3))) + (F32::spec_ser(v.scale))) + (U32::spec_ser(v.unk5))) + (U32::spec_ser(v.unk6))) + (U32::spec_ser(v.max_hp))
}

#[verifier::opaque]
pub open spec fn wf_mob_entity_part1(v: MobEntityView) -> bool {
    U8::spec_wf(v.unk2) && F32::spec_wf(v.unk3) && F32::spec_wf(v.scale) && U32::spec_wf(v.unk5) && U32::spec_wf(v.unk6) && U32::spec_wf(v.max_hp)
}

#[verifier::spinoff_prover]
#[verifier::rlimit(100)]
proof fn lemma_mob_entity_part1(v: MobEntityView, s: Seq<u8>, p: int)
    requires
        wf_mob_entity_part1(v),
        0 <= p,
        p + ser_mob_entity_part1(v).len() <= s.len(),
        s.subrange(p, p + ser_mob_entity_part1(v).len()) == ser_mob_entity_part1(v),
    ensures
        spec_mob_entity_part1(s, p) == Ok::<((U8, F32, F32, U32, U32, U32,), int), BinError>(((v.unk2, v.unk3, v.scale, v.unk5, v.unk6, v.max_hp,), p + ser_mob_entity_part1(v).len())),
{
    reveal(spec_mob_entity_part1);
    reveal(ser_mob_entity_part1);
    reveal(wf_mob_entity_part1);
        let b0 = U8::spec_ser(v.unk2);
        let b1 = F32::spec_ser(v.unk3);
        let b2 = F32::spec_ser(v.scale);
        let b3 = U32::spec_ser(v.unk5);
        let b4 = U32::spec_ser(v.unk6);
        let b5 = U32::spec_ser(v.max_hp);
        let a0 = b0;
        let a1 = a0 + b1;
        let a2 = a1 + b2;
        let a3 = a2 + b3;
        let a4 = a3 + b4;
        let a5 = a4 + b5;
        lemma_subrange_prefix(s, p, a4, b5);
        lemma_subrange_prefix(s, p, a3, b4);
        lemma_subrange_prefix(s, p, a2, b3);
        lemma_subrange_prefix(s, p, a1, b2);
        lemma_subrange_prefix(s, p, a0, b1);
        U8::lemma_roundtrip(v.unk2, s, p);
        F32::lemma_roundtrip(v.unk3, s, p + a0.len());
        F32::lemma_roundtrip(v.scale, s, p + a1.len());
        U32::lemma_roundtrip(v.unk5, s, p + a2.len());
        U32::lemma_roundtrip(v.unk6, s, p + a3.len());
        U32::lemma_roundtrip(v.max_hp, s, p + a4.len());
}

fn parse_mob_entity_part1(data: &[u8], p: usize) -> (r: Result<((U8, F32, F32, U32, U32, U32,), usize), BinError>)
    requires
        p <= data@.len(),
    ensures
        r matches Ok((_, q)) ==> p <= q <= data@.len(),
        match r {
            Ok((x, q)) => spec_mob_entity_part1(data@, p as int) == Ok::<((U8, F32, F32, U32, U32, U32,), int), BinError>(((x.0@, x.1@, x.2@, x.3@, x.4@, x.5@,), q as int)),
            Err(e) => spec_mob_entity_part1(data@, p as int) == Err::<((U8, F32, F32, U32, U32, U32,), int), BinError>(e),
        },
{
    reveal(spec_mob_entity_part1);
        let (unk2, p1) = U8::parse(data, p)?;
        let (unk3, p2) = F32::parse(data, p1)?;
        let (scale, p3) = F32::parse(data, p2)?;
        let (unk5, p4) = U32::parse(data, p3)?;
        let (unk6, p5) = U32::parse(data, p4)?;
        let (max_hp, p6) = U32::parse(data, p5)?;
        Ok(((unk2, unk3, scale, unk5, unk6, max_hp,), p6))
}

impl MobEntity {
    fn write_mob_entity_part1(&self, out: &mut Vec<u8>)
        ensures
            final(out)@ == old(out)@ + ser_mob_entity_part1(self@),
    {
        reveal(ser_mob_entity_part1);
            self.unk2.write(out);
            self.unk3.write(out);
            self.scale.write(out);
            self.unk5.write(out);
            self.unk6.write(out);
            self.max_hp.write(out);
        assert(final(out)@ =~= old(out)@ + ser_mob_entity_part1(self@));
    }
}

/// Reading fields `unk8`, `unk9`, `unk10`, `unk11`, `unk12`, `unk13` of [`MobEntity`].
#[verifier::opaque]
pub open spec fn spec_mob_entity_part2(s: Seq<u8>, p: int) -> SpecRead<(F32, U16, U32, RBool, U32, U32,)> {
        match F32::spec_parse(s, p) {
            Err(e) => Err(e),
            Ok((unk8, p1)) => 
            match U16::spec_parse(s, p1) {
                Err(e) => Err(e),
                Ok((unk9, p2)) => 
                match U32::spec_parse(s, p2) {
                    Err(e) => Err(e),
                    Ok((unk10, p3)) => 
                    match RBool::spec_parse(s, p3) {
                        Err(e) => Err(e),
                        Ok((unk11, p4)) => 
                        match U32::spec_parse(s, p4) {
                            Err(e) => Err(e),
                            Ok((unk12, p5)) => 
                            match U32::spec_parse(s, p5) {
                                Err(e) => Err(e),
                                Ok((unk13, p6)) => 
                                Ok(((unk8, unk9, unk10, unk11, unk12, unk13,), p6))
                            }
                        }
                    }
                }
            }
        }
}

/// The bytes of fields `unk8`, `unk9`, `unk10`, `unk11`, `unk12`, `unk13` of [`MobEntity`].
#[verifier::opaque]
pub open spec fn ser_mob_entity_part2(v: MobEntityView) -> Seq<u8> {
    (((((F32::spec_ser(v.unk8)) + (U16::spec_ser(v.unk9))) + (U32::spec_ser(v.unk10))) + (RBool::spec_ser(v.unk11))) + (U32::spec_ser(v.unk12))) + (U32::spec_ser(v.unk13))
}

#[verifier::opaque]
pub open spec fn wf_mob_entity_part2(v: MobEntityView) -> bool {
    F32::spec_wf(v.unk8) && U16::spec_wf(v.unk9) && U32::spec_wf(v.unk10) && RBool::spec_wf(v.unk11) && U32::spec_wf(v.unk12) && U32::spec_wf(v.unk13)
}

#[verifier::spinoff_prover]
#[verifier::rlimit(100)]
proof fn lemma_mob_entity_part2(v: MobEntityView, s: Seq<u8>, p: int)
    requires
        wf_mob_entity_part2(v),
        0 <= p,
        p + ser_mob_entity_part2(v).len() <= s.len(),
        s.subrange(p, p + ser_mob_entity_part2(v).len()) == ser_mob_entity_part2(v),
    ensures
        spec_mob_entity_part2(s, p) == Ok::<((F32, U16, U32, RBool, U32, U32,), int), BinError>(((v.unk8, v.unk9, v.unk10, v.unk11, v.unk12, v.unk13,), p + ser_mob_entity_part2(v).len())),
{
    reveal(spec_mob_entity_part2);
    reveal(ser_mob_entity_part2);
    reveal(wf_mob_entity_part2);
        let b0 = F32::spec_ser(v.unk8);
        let b1 = U16::spec_ser(v.unk9);
        let b2 = U32::spec_ser(v.unk10);
        let b3 = RBool::spec_ser(v.unk11);
        let b4 = U32::spec_ser(v.unk12);
        let b5 = U32::spec_ser(v.unk13);
        let a0 = b0;
        let a1 = a0 + b1;
        let a2 = a1 + b2;
        let a3 = a2 + b3;
        let a4 = a3 + b4;
        let a5 = a4 + b5;
        lemma_subrange_prefix(s, p, a4, b5);
        lemma_subrange_prefix(s, p, a3, b4);
        lemma_subrange_prefix(s, p, a2, b3);
        lemma_subrange_prefix(s, p, a1, b2);
        lemma_subrange_prefix(s, p, a0, b1);
        F32::lemma_roundtrip(v.unk8, s, p);
        U16::lemma_roundtrip(v.unk9, s, p + a0.len());
        U32::lemma_roundtrip(v.unk10, s, p + a1.len());
        RBool::lemma_roundtrip(v.unk11, s, p + a2.len());
        U32::lemma_roundtrip(v.unk12, s, p + a3.len());
        U32::lemma_roundtrip(v.unk13, s, p + a4.len());
}

fn parse_mob_entity_part2(data: &[u8], p: usize) -> (r: Result<((F32, U16, U32, RBool, U32, U32,), usize), BinError>)
    requires
        p <= data@.len(),
    ensures
        r matches Ok((_, q)) ==> p <= q <= data@.len(),
        match r {
            Ok((x, q)) => spec_mob_entity_part2(data@, p as int) == Ok::<((F32, U16, U32, RBool, U32, U32,), int), BinError>(((x.0@, x.1@, x.2@, x.3@, x.4@, x.5@,), q as int)),
            Err(e) => spec_mob_entity_part2(data@, p as int) == Err::<((F32, U16, U32, RBool, U32, U32,), int), BinError>(e),
        },
{
    reveal(spec_mob_entity_part2);
        let (unk8, p1) = F32::parse(data, p)?;
        let (unk9, p2) = U16::parse(data, p1)?;
        let (unk10, p3) = U32::parse(data, p2)?;
        let (unk11, p4) = RBool::parse(data, p3)?;
        let (unk12, p5) = U32::parse(data, p4)?;
        let (unk13, p6) = U32::parse(data, p5)?;
        Ok(((unk8, unk9, unk10, unk11, unk12, unk13,), p6))
}

impl MobEntity {
    fn write_mob_entity_part2(&self, out: &mut Vec<u8>)
        ensures
            final(out)@ == old(out)@ + ser_mob_entity_part2(self@),
    {
        reveal(ser_mob_entity_part2);
            self.unk8.write(out);
            self.unk9.write(out);
            self.unk10.write(out);
            self.unk11.write(out);
            self.unk12.write(out);
            self.unk13.write(out);
        assert(final(out)@ =~= old(out)@ + ser_mob_entity_part2(self@));
    }
}

impl Wire for MobEntity {
    open spec fn spec_parse(s: Seq<u8>, p: int) -> SpecRead<MobEntityView> {
        match spec_mob_entity_part0(s, p) {
            Err(e) => Err(e),
            Ok((t0, q0)) => 
            match spec_mob_entity_part1(s, q0) {
                Err(e) => Err(e),
                Ok((t1, q1)) => 
                match spec_mob_entity_part2(s, q1) {
                    Err(e) => Err(e),
                    Ok((t2, q2)) => 
                    Ok((MobEntityView { id: t0.0, mob_id: t0.1, level: t0.2, custom_name: t0.3, hp: t0.4, coords: t0.5, unk2: t1.0, unk3: t1.1, scale: t1.2, unk5: t1.3, unk6: t1.4, max_hp: t1.5, unk8: t2.0, unk9: t2.1, unk10: t2.2, unk11: t2.3, unk12: t2.4, unk13: t2.5 }, q2))
                }
            }
        }
    }

    open spec fn spec_ser(v: MobEntityView) -> Seq<u8> {
        ((ser_mob_entity_part0(v)) + (ser_mob_entity_part1(v))) + (ser_mob_entity_part2(v))
    }

    open spec fn spec_wf(v: MobEntityView) -> bool {
        wf_mob_entity_part0(v) && wf_mob_entity_part1(v) && wf_mob_entity_part2(v)
    }

    fn parse(data: &[u8], p: usize) -> (r: Result<(Self, usize), BinError>) {
        let (t0, q0) = parse_mob_entity_part0(data, p)?;
        let (t1, q1) = parse_mob_entity_part1(data, q0)?;
        let (t2, q2) = parse_mob_entity_part2(data, q1)?;
        Ok((MobEntity { id: t0.0, mob_id: t0.1, level: t0.2, custom_name: t0.3, hp: t0.4, coords: t0.5, unk2: t1.0, unk3: t1.1, scale: t1.2, unk5: t1.3, unk6: t1.4, max_hp: t1.5, unk8: t2.0, unk9: t2.1, unk10: t2.2, unk11: t2.3, unk12: t2.4, unk13: t2.5 }, q2))
    }

    fn write(&self, out: &mut Vec<u8>) {
        self.write_mob_entity_part0(out);
        self.write_mob_entity_part1(out);
        self.write_mob_entity_part2(out);
        assert(final(out)@ =~= old(out)@ + Self::spec_ser(self@));
    }

    proof fn lemma_roundtrip(v: MobEntityView, s: Seq<u8>, p: int) {
        let b0 = ser_mob_entity_part0(v);
        let b1 = ser_mob_entity_part1(v);
        let b2 = ser_mob_entity_part2(v);
        let a0 = b0;
        let a1 = a0 + b1;
        let a2 = a1 + b2;
        lemma_subrange_prefix(s, p, a1, b2);
        lemma_subrange_prefix(s, p, a0, b1);
        lemma_mob_entity_part0(v, s, p);
        lemma_mob_entity_part1(v, s, p + a0.len());
        lemma_mob_entity_part2(v, s, p + a1.len());
    }
}


#[derive(Debug, Clone, PartialEq, Eq)]
pub struct PlayerEntity {
    pub id: U32,
    pub class: U16,
    pub level: U16,
    pub unk4: U8,
    pub unk5: U8,
    pub unk6: U8,
    pub name: RString,
    pub hp: U32,
    pub mp: U32,
    pub location_id: U32,
    pub coords: Coords,
    pub unk13: U8,
    pub rot: F32,
    pub unk15: RBool,
    pub alive: RBool,
    pub unk17: RBool,
    pub unk18: RBool,
    pub unk19: RBool,
    pub body: BodyParam,
    pub max_hp: U32,
    pub max_mp: U32,
    pub movspeed: F32,
    pub unk24: U32,
    pub unk25: U32,
    pub unk26: U32,
    pub unk27: U32,
    pub unk28: U32,
    pub unk29: U8,
    pub unk30: U32,
    pub unk31: U32,
    pub unk32: RString,
    pub unk33: U64,
    pub unk34: U16,
    pub unk35: U16,
    pub unk36: RBool,
    pub unk37: RString,
    pub unk38: U32,
    pub effects: RVec<CameraEffect>,
    pub unk39: Op13,
    /// Exp on this level
    pub current_exp: U32,
    pub unk41: U32,
    pub unk42: U16,
    pub stats: RVec<F32>,
    pub stats2: Vec<F32>,
    pub unk45: U64,
    pub talents: RVec<U16>,
    pub unk47: RVec<U16>,
    pub unk48: U64,
    pub unk49: F32,
    pub unk50: F32,
    pub unk51: U16,
    pub unk52: U16,
    pub unk53: U32,
    pub unk54: U32,
    pub unk55: U32,
    pub unk56: [U16; 4],
    pub unk57: U16,
    pub unk58: [U16; 4],
    pub unk59: U16,
    pub unk60: CurrencyData,
    pub unk61: U8,
    pub ach_data: RZlib,
}

/// Mathematical form of [`PlayerEntity`].
pub struct PlayerEntityView {
    pub id: U32,
    pub class: U16,
    pub level: U16,
    pub unk4: U8,
    pub unk5: U8,
    pub unk6: U8,
    pub name: Seq<char>,
    pub hp: U32,
    pub mp: U32,
    pub location_id: U32,
    pub coords: CoordsView,
    pub unk13: U8,
    pub rot: F32,
    pub unk15: RBool,
    pub alive: RBool,
    pub unk17: RBool,
    pub unk18: RBool,
    pub unk19: RBool,
    pub body: BodyParam,
    pub max_hp: U32,
    pub max_mp: U32,
    pub movspeed: F32,
    pub unk24: U32,
    pub unk25: U32,
    pub unk26: U32,
    pub unk27: U32,
    pub unk28: U32,
    pub unk29: U8,
    pub unk30: U32,
    pub unk31: U32,
    pub unk32: Seq<char>,
    pub unk33: U64,
    pub unk34: U16,
    pub unk35: U16,
    pub unk36: RBool,
    pub unk37: Seq<char>,
    pub unk38: U32,
    pub effects: Seq<CameraEffectView>,
    pub unk39: Seq<u16>,
    pub current_exp: U32,
    pub unk41: U32,
    pub unk42: U16,
    pub stats: Seq<F32>,
    pub stats2: Seq<F32>,
    pub unk45: U64,
    pub talents: Seq<U16>,
    pub unk47: Seq<U16>,
    pub unk48: U64,
    pub unk49: F32,
    pub unk50: F32,
    pub unk51: U16,
    pub unk52: U16,
    pub unk53: U32,
    pub unk54: U32,
    pub unk55: U32,
    pub unk56: Seq<U16>,
    pub unk57: U16,
    pub unk58: Seq<U16>,
    pub unk59: U16,
    pub unk60: Seq<u16>,
    pub unk61: U8,
    pub ach_data: Seq<u8>,
}

impl View for PlayerEntity {
    type V = PlayerEntityView;

    open spec fn view(&self) -> PlayerEntityView {
        PlayerEntityView {
            id: self.id@,
            class: self.class@,
            level: self.level@,
            unk4: self.unk4@,
            unk5: self.unk5@,
            unk6: self.unk6@,
            name: self.name@,
            hp: self.hp@,
            mp: self.mp@,
            location_id: self.location_id@,
            coords: self.coords@,
            unk13: self.unk13@,
            rot: self.rot@,
            unk15: self.unk15@,
            alive: self.alive@,
            unk17: self.unk17@,
            unk18: self.unk18@,
            unk19: self.unk19@,
            body: self.body@,
            max_hp: self.max_hp@,
            max_mp: self.max_mp@,
            movspeed: self.movspeed@,
            unk24: self.unk24@,
            unk25: self.unk25@,
            unk26: self.unk26@,
            unk27: self.unk27@,
            unk28: self.unk28@,
            unk29: self.unk29@,
            unk30: self.unk30@,
            unk31: self.unk31@,
            unk32: self.unk32@,
            unk33: self.unk33@,
            unk34: self.unk34@,
            unk35: self.unk35@,
            unk36: self.unk36@,
            unk37: self.unk37@,
            unk38: self.unk38@,
            effects: self.effects@,
            unk39: self.unk39@,
            current_exp: self.current_exp@,
            unk41: self.unk41@,
            unk42: self.unk42@,
            stats: self.stats@,
            stats2: self.stats2@,
            unk45: self.unk45@,
            talents: self.talents@,
            unk47: self.unk47@,
            unk48: self.unk48@,
            unk49: self.unk49@,
            unk50: self.unk50@,
            unk51: self.unk51@,
            unk52: self.unk52@,
            unk53: self.unk53@,
            unk54: self.unk54@,
            unk55: self.unk55@,
            unk56: self.unk56@,
            unk57: self.unk57@,
            unk58: self.unk58@,
            unk59: self.unk59@,
            unk60: self.unk60@,
            unk61: self.unk61@,
            ach_data: self.ach_data@,
        }
    }
}

/// Reading fields `id`, `class`, `level`, `unk4`, `unk5`, `unk6` of [`PlayerEntity`].
#[verifier::opaque]
pub open spec fn spec_player_entity_part0(s: Seq<u8>, p: int) -> SpecRead<(U32, U16, U16, U8, U8, U8,)> {
        match U32::spec_parse(s, p) {
            Err(e) => Err(e),
            Ok((id, p1)) => 
            match U16::spec_parse(s, p1) {
                Err(e) => Err(e),
                Ok((class, p2)) => 
                match U16::spec_parse(s, p2) {
                    Err(e) => Err(e),
                    Ok((level, p3)) => 
                    match U8::spec_parse(s, p3) {
                        Err(e) => Err(e),
                        Ok((unk4, p4)) => 
                        match U8::spec_parse(s, p4) {
                            Err(e) => Err(e),
                            Ok((unk5, p5)) => 
                            match U8::spec_parse(s, p5) {
                                Err(e) => Err(e),
                                Ok((unk6, p6)) => 
                                Ok(((id, class, level, unk4, unk5, unk6,), p6))
                            }
                        }
                    }
                }
            }
        }
}

/// The bytes of fields `id`, `class`, `level`, `unk4`, `unk5`, `unk6` of [`PlayerEntity`].
#[verifier::opaque]
pub open spec fn ser_player_entity_part0(v: PlayerEntityView) -> Seq<u8> {
    (((((U32::spec_ser(v.id)) + (U16::spec_ser(v.class))) + (U16::spec_ser(v.level))) + (U8::spec_ser(v.unk4))) + (U8::spec_ser(v.unk5))) + (U8::spec_ser(v.unk6))
}

#[verifier::opaque]
pub open spec fn wf_player_entity_part0(v: PlayerEntityView) -> bool {
    U32::spec_wf(v.id) && U16::spec_wf(v.class) && U16::spec_wf(v.level) && U8::spec_wf(v.unk4) && U8::spec_wf(v.unk5) && U8::spec_wf(v.unk6)
}

#[verifier::spinoff_prover]
#[verifier::rlimit(100)]
proof fn lemma_player_entity_part0(v: PlayerEntityView, s: Seq<u8>, p: int)
    requires
        wf_player_entity_part0(v),
        0 <= p,
        p + ser_player_entity_part0(v).len() <= s.len(),
        s.subrange(p, p + ser_player_entity_part0(v).len()) == ser_player_entity_part0(v),
    ensures
        spec_player_entity_part0(s, p) == Ok::<((U32, U16, U16, U8, U8, U8,), int), BinError>(((v.id, v.class, v.level, v.unk4, v.unk5, v.unk6,), p + ser_player_entity_part0(v).len())),
{
    reveal(spec_player_entity_part0);
    reveal(ser_player_entity_part0);
    reveal(wf_player_entity_part0);
        let b0 = U32::spec_ser(v.id);
        let b1 = U16::spec_ser(v.class);
        let b2 = U16::spec_ser(v.level);
        let b3 = U8::spec_ser(v.unk4);
        let b4 = U8::spec_ser(v.unk5);
        let b5 = U8::spec_ser(v.unk6);
        let a0 = b0;
        let a1 = a0 + b1;
        let a2 = a1 + b2;
        let a3 = a2 + b3;
        let a4 = a3 + b4;
        let a5 = a4 + b5;
        lemma_subrange_prefix(s, p, a4, b5);
        lemma_subrange_prefix(s, p, a3, b4);
        lemma_subrange_prefix(s, p, a2, b3);
        lemma_subrange_prefix(s, p, a1, b2);
        lemma_subrange_prefix(s, p, a0, b1);
        U32::lemma_roundtrip(v.id, s, p);
        U16::lemma_roundtrip(v.class, s, p + a0.len());
        U16::lemma_roundtrip(v.level, s, p + a1.len());
        U8::lemma_roundtrip(v.unk4, s, p + a2.len());
        U8::lemma_roundtrip(v.unk5, s, p + a3.len());
        U8::lemma_roundtrip(v.unk6, s, p + a4.len());
}

fn parse_player_entity_part0(data: &[u8], p: usize) -> (r: Result<((U32, U16, U16, U8, U8, U8,), usize), BinError>)
    requires
        p <= data@.len(),
    ensures
        r matches Ok((_, q)) ==> p <= q <= data@.len(),
        match r {
            Ok((x, q)) => spec_player_entity_part0(data@, p as int) == Ok::<((U32, U16, U16, U8, U8, U8,), int), BinError>(((x.0@, x.1@, x.2@, x.3@, x.4@, x.5@,), q as int)),
            Err(e) => spec_player_entity_part0(data@, p as int) == Err::<((U32, U16, U16, U8, U8, U8,), int), BinError>(e),
        },
{
    reveal(spec_player_entity_part0);
        let (id, p1) = U32::parse(data, p)?;
        let (class, p2) = U16::parse(data, p1)?;
        let (level, p3) = U16::parse(data, p2)?;
        let (unk4, p4) = U8::parse(data, p3)?;
        let (unk5, p5) = U8::parse(data, p4)?;
        let (unk6, p6) = U8::parse(data, p5)?;
        Ok(((id, class, level, unk4, unk5, unk6,), p6))
}

impl PlayerEntity {
    fn write_player_entity_part0(&self, out: &mut Vec<u8>)
        ensures
            final(out)@ == old(out)@ + ser_player_entity_part0(self@),
    {
        reveal(ser_player_entity_part0);
            self.id.write(out);
            self.class.write(out);
            self.level.write(out);
            self.unk4.write(out);
            self.unk5.write(out);
            self.unk6.write(out);
        assert(final(out)@ =~= old(out)@ + ser_player_entity_part0(self@));
    }
}

/// Reading fields `name`, `hp`, `mp`, `location_id`, `coords`, `unk13` of [`PlayerEntity`].
#[verifier::opaque]
pub open spec fn spec_player_entity_part1(s: Seq<u8>, p: int) -> SpecRead<(Seq<char>, U32, U32, U32, CoordsView, U8,)> {
        match RString::spec_parse(s, p) {
            Err(e) => Err(e),
            Ok((name, p1)) => 
            match U32::spec_parse(s, p1) {
                Err(e) => Err(e),
                Ok((hp, p2)) => 
                match U32::spec_parse(s, p2) {
                    Err(e) => Err(e),
                    Ok((mp, p3)) => 
                    match U32::spec_parse(s, p3) {
                        Err(e) => Err(e),
                        Ok((location_id, p4)) => 
                        match Coords::spec_parse(s, p4) {
                            Err(e) => Err(e),
                            Ok((coords, p5)) => 
                            match U8::spec_parse(s, p5) {
                                Err(e) => Err(e),
                                Ok((unk13, p6)) => 
                                Ok(((name, hp, mp, location_id, coords, unk13,), p6))
                            }
                        }
                    }
                }
            }
        }
}

/// The bytes of fields `name`, `hp`, `mp`, `location_id`, `coords`, `unk13` of [`PlayerEntity`].
#[verifier::opaque]
pub open spec fn ser_player_entity_part1(v: PlayerEntityView) -> Seq<u8> {
    (((((RString::spec_ser(v.name)) + (U32::spec_ser(v.hp))) + (U32::spec_ser(v.mp))) + (U32::spec_ser(v.location_id))) + (Coords::spec_ser(v.coords))) + (U8::spec_ser(v.unk13))
}

#[verifier::opaque]
pub open spec fn wf_player_entity_part1(v: PlayerEntityView) -> bool {
    RString::spec_wf(v.name) && U32::spec_wf(v.hp) && U32::spec_wf(v.mp) && U32::spec_wf(v.location_id) && Coords::spec_wf(v.coords) && U8::spec_wf(v.unk13)
}

#[verifier::spinoff_prover]
#[verifier::rlimit(100)]
proof fn lemma_player_entity_part1(v: PlayerEntityView, s: Seq<u8>, p: int)
    requires
        wf_player_entity_part1(v),
        0 <= p,
        p + ser_player_entity_part1(v).len() <= s.len(),
        s.subrange(p, p + ser_player_entity_part1(v).len()) == ser_player_entity_part1(v),
    ensures
        spec_player_entity_part1(s, p) == Ok::<((Seq<char>, U32, U32, U32, CoordsView, U8,), int), BinError>(((v.name, v.hp, v.mp, v.location_id, v.coords, v.unk13,), p + ser_player_entity_part1(v).len())),
{
    reveal(spec_player_entity_part1);
    reveal(ser_player_entity_part1);
    reveal(wf_player_entity_part1);
        let b0 = RString::spec_ser(v.name);
        let b1 = U32::spec_ser(v.hp);
        let b2 = U32::spec_ser(v.mp);
        let b3 = U32::spec_ser(v.location_id);
        let b4 = Coords::spec_ser(v.coords);
        let b5 = U8::spec_ser(v.unk13);
        let a0 = b0;
        let a1 = a0 + b1;
        let a2 = a1 + b2;
        let a3 = a2 + b3;
        let a4 = a3 + b4;
        let a5 = a4 + b5;
        lemma_subrange_prefix(s, p, a4, b5);
        lemma_subrange_prefix(s, p, a3, b4);
        lemma_subrange_prefix(s, p, a2, b3);
        lemma_subrange_prefix(s, p, a1, b2);
        lemma_subrange_prefix(s, p, a0, b1);
        RString::lemma_roundtrip(v.name, s, p);
        U32::lemma_roundtrip(v.hp, s, p + a0.len());
        U32::lemma_roundtrip(v.mp, s, p + a1.len());
        U32::lemma_roundtrip(v.location_id, s, p + a2.len());
        Coords::lemma_roundtrip(v.coords, s, p + a3.len());
        U8::lemma_roundtrip(v.unk13, s, p + a4.len());
}

fn parse_player_entity_part1(data: &[u8], p: usize) -> (r: Result<((RString, U32, U32, U32, Coords, U8,), usize), BinError>)
    requires
        p <= data@.len(),
    ensures
        r matches Ok((_, q)) ==> p <= q <= data@.len(),
        match r {
            Ok((x, q)) => spec_player_entity_part1(data@, p as int) == Ok::<((Seq<char>, U32, U32, U32, CoordsView, U8,), int), BinError>(((x.0@, x.1@, x.2@, x.3@, x.4@, x.5@,), q as int)),
            Err(e) => spec_player_entity_part1(data@, p as int) == Err::<((Seq<char>, U32, U32, U32, CoordsView, U8,), int), BinError>(e),
        },
{
    reveal(spec_player_entity_part1);
        let (name, p1) = RString::parse(data, p)?;
        let (hp, p2) = U32::parse(data, p1)?;
        let (mp, p3) = U32::parse(data, p2)?;
        let (location_id, p4) = U32::parse(data, p3)?;
        let (coords, p5) = Coords::parse(data, p4)?;
        let (unk13, p6) = U8::parse(data, p5)?;
        Ok(((name, hp, mp, location_id, coords, unk13,), p6))
}

impl PlayerEntity {
    fn write_player_entity_part1(&self, out: &mut Vec<u8>)
        ensures
            final(out)@ == old(out)@ + ser_player_entity_part1(self@),
    {
        reveal(ser_player_entity_part1);
            self.name.write(out);
            self.hp.write(out);
            self.mp.write(out);
            self.location_id.write(out);
            self.coords.write(out);
            self.unk13.write(out);
        assert(final(out)@ =~= old(out)@ + ser_player_entity_part1(self@));
    }
}

/// Reading fields `rot`, `unk15`, `alive`, `unk17`, `unk18`, `unk19` of [`PlayerEntity`].
#[verifier::opaque]
pub open spec fn spec_player_entity_part2(s: Seq<u8>, p: int) -> SpecRead<(F32, RBool, RBool, RBool, RBool, RBool,)> {
        match F32::spec_parse(s, p) {
            Err(e) => Err(e),
            Ok((rot, p1)) => 
            match RBool::spec_parse(s, p1) {
                Err(e) => Err(e),
                Ok((unk15, p2)) => 
                match RBool::spec_parse(s, p2) {
                    Err(e) => Err(e),
                    Ok((alive, p3)) => 
                    match RBool::spec_parse(s, p3) {
                        Err(e) => Err(e),
                        Ok((unk17, p4)) => 
                        match RBool::spec_parse(s, p4) {
                            Err(e) => Err(e),
                            Ok((unk18, p5)) => 
                            match RBool::spec_parse(s, p5) {
                                Err(e) => Err(e),
                                Ok((unk19, p6)) => 
                                Ok(((rot, unk15, alive, unk17, unk18, unk19,), p6))
                            }
                        }
                    }
                }
            }
        }
}

/// The bytes of fields `rot`, `unk15`, `alive`, `unk17`, `unk18`, `unk19` of [`PlayerEntity`].
#[verifier::opaque]
pub open spec fn ser_player_entity_part2(v: PlayerEntityView) -> Seq<u8> {
    (((((F32::spec_ser(v.rot)) + (RBool::spec_ser(v.unk15))) + (RBool::spec_ser(v.alive))) + (RBool::spec_ser(v.unk17))) + (RBool::spec_ser(v.unk18))) + (RBool::spec_ser(v.unk19))
}

#[verifier::opaque]
pub open spec fn wf_player_entity_part2(v: PlayerEntityView) -> bool {
    F32::spec_wf(v.rot) && RBool::spec_wf(v.unk15) && RBool::spec_wf(v.alive) && RBool::spec_wf(v.unk17) && RBool::spec_wf(v.unk18) && RBool::spec_wf(v.unk19)
}

#[verifier::spinoff_prover]
#[verifier::rlimit(100)]
proof fn lemma_player_entity_part2(v: PlayerEntityView, s: Seq<u8>, p: int)
    requires
        wf_player_entity_part2(v),
        0 <= p,
        p + ser_player_entity_part2(v).len() <= s.len(),
        s.subrange(p, p + ser_player_entity_part2(v).len()) == ser_player_entity_part2(v),
    ensures
        spec_player_entity_part2(s, p) == Ok::<((F32, RBool, RBool, RBool, RBool, RBool,), int), BinError>(((v.rot, v.unk15, v.alive, v.unk17, v.unk18, v.unk19,), p + ser_player_entity_part2(v).len())),
{
    reveal(spec_player_entity_part2);
    reveal(ser_player_entity_part2);
    reveal(wf_player_entity_part2);
        let b0 = F32::spec_ser(v.rot);
        let b1 = RBool::spec_ser(v.unk15);
        let b2 = RBool::spec_ser(v.alive);
        let b3 = RBool::spec_ser(v.unk17);
        let b4 = RBool::spec_ser(v.unk18);
        let b5 = RBool::spec_ser(v.unk19);
        let a0 = b0;
        let a1 = a0 + b1;
        let a2 = a1 + b2;
        let a3 = a2 + b3;
        let a4 = a3 + b4;
        let a5 = a4 + b5;
        lemma_subrange_prefix(s, p, a4, b5);
        lemma_subrange_prefix(s, p, a3, b4);
        lemma_subrange_prefix(s, p, a2, b3);
        lemma_subrange_prefix(s, p, a1, b2);
        lemma_subrange_prefix(s, p, a0, b1);
        F32::lemma_roundtrip(v.rot, s, p);
        RBool::lemma_roundtrip(v.unk15, s, p + a0.len());
        RBool::lemma_roundtrip(v.alive, s, p + a1.len());
        RBool::lemma_roundtrip(v.unk17, s, p + a2.len());
        RBool::lemma_roundtrip(v.unk18, s, p + a3.len());
        RBool::lemma_roundtrip(v.unk19, s, p + a4.len());
}

fn parse_player_entity_part2(data: &[u8], p: usize) -> (r: Result<((F32, RBool, RBool, RBool, RBool, RBool,), usize), BinError>)
    requires
        p <= data@.len(),
    ensures
        r matches Ok((_, q)) ==> p <= q <= data@.len(),
        match r {
            Ok((x, q)) => spec_player_entity_part2(data@, p as int) == Ok::<((F32, RBool, RBool, RBool, RBool, RBool,), int), BinError>(((x.0@, x.1@, x.2@, x.3@, x.4@, x.5@,), q as int)),
            Err(e) => spec_player_entity_part2(data@, p as int) == Err::<((F32, RBool, RBool, RBool, RBool, RBool,), int), BinError>(e),
        },
{
    reveal(spec_player_entity_part2);
        let (rot, p1) = F32::parse(data, p)?;
        let (unk15, p2) = RBool::parse(data, p1)?;
        let (alive, p3) = RBool::parse(data, p2)?;
        let (unk17, p4) = RBool::parse(data, p3)?;
        let (unk18, p5) = RBool::parse(data, p4)?;
        let (unk19, p6) = RBool::parse(data, p5)?;
        Ok(((rot, unk15, alive, unk17, unk18, unk19,), p6))
}

impl PlayerEntity {
    fn write_player_entity_part2(&self, out: &mut Vec<u8>)
        ensures
            final(out)@ == old(out)@ + ser_player_entity_part2(self@),
    {
        reveal(ser_player_entity_part2);
            self.rot.write(out);
            self.unk15.write(out);
            self.alive.write(out);
            self.unk17.write(out);
            self.unk18.write(out);
            self.unk19.write(out);
        assert(final(out)@ =~= old(out)@ + ser_player_entity_part2(self@));
    }
}

/// Reading fields `body`, `max_hp`, `max_mp`, `movspeed`, `unk24`, `unk25` of [`PlayerEntity`].
#[verifier::opaque]
pub open spec fn spec_player_entity_part3(s: Seq<u8>, p: int) -> SpecRead<(BodyParam, U32, U32, F32, U32, U32,)> {
        match BodyParam::spec_parse(s, p) {
            Err(e) => Err(e),
            Ok((body, p1)) => 
            match U32::spec_parse(s, p1) {
                Err(e) => Err(e),
                Ok((max_hp, p2)) => 
                match U32::spec_parse(s, p2) {
                    Err(e) => Err(e),
                    Ok((max_mp, p3)) => 
                    match F32::spec_parse(s, p3) {
                        Err(e) => Err(e),
                        Ok((movspeed, p4)) => 
                        match U32::spec_parse(s, p4) {
                            Err(e) => Err(e),
                            Ok((unk24, p5)) => 
                            match U32::spec_parse(s, p5) {
                                Err(e) => Err(e),
                                Ok((unk25, p6)) => 
                                Ok(((body, max_hp, max_mp, movspeed, unk24, unk25,), p6))
                            }
                        }
                    }
                }
            }
        }
}

/// The bytes of fields `body`, `max_hp`, `max_mp`, `movspeed`, `unk24`, `unk25` of [`PlayerEntity`].
#[verifier::opaque]
pub open spec fn ser_player_entity_part3(v: PlayerEntityView) -> Seq<u8> {
    (((((BodyParam::spec_ser(v.body)) + (U32::spec_ser(v.max_hp))) + (U32::spec_ser(v.max_mp))) + (F32::spec_ser(v.movspeed))) + (U32::spec_ser(v.unk24))) + (U32::spec_ser(v.unk25))
}

#[verifier::opaque]
pub open spec fn wf_player_entity_part3(v: PlayerEntityView) -> bool {
    BodyParam::spec_wf(v.body) && U32::spec_wf(v.max_hp) && U32::spec_wf(v.max_mp) && F32::spec_wf(v.movspeed) && U32::spec_wf(v.unk24) && U32::spec_wf(v.unk25)
}

#[verifier::spinoff_prover]
#[verifier::rlimit(100)]
proof fn lemma_player_entity_part3(v: PlayerEntityView, s: Seq<u8>, p: int)
    requires
        wf_player_entity_part3(v),
        0 <= p,
        p + ser_player_entity_part3(v).len() <= s.len(),
        s.subrange(p, p + ser_player_entity_part3(v).len()) == ser_player_entity_part3(v),
    ensures
        spec_player_entity_part3(s, p) == Ok::<((BodyParam, U32, U32, F32, U32, U32,), int), BinError>(((v.body, v.max_hp, v.max_mp, v.movspeed, v.unk24, v.unk25,), p + ser_player_entity_part3(v).len())),
{
    reveal(spec_player_entity_part3);
    reveal(ser_player_entity_part3);
    reveal(wf_player_entity_part3);
        let b0 = BodyParam::spec_ser(v.body);
        let b1 = U32::spec_ser(v.max_hp);
        let b2 = U32::spec_ser(v.max_mp);
        let b3 = F32::spec_ser(v.movspeed);
        let b4 = U32::spec_ser(v.unk24);
        let b5 = U32::spec_ser(v.unk25);
        let a0 = b0;
        let a1 = a0 + b1;
        let a2 = a1 + b2;
        let a3 = a2 + b3;
        let a4 = a3 + b4;
        let a5 = a4 + b5;
        lemma_subrange_prefix(s, p, a4, b5);
        lemma_subrange_prefix(s, p, a3, b4);
        lemma_subrange_prefix(s, p, a2, b3);
        lemma_subrange_prefix(s, p, a1, b2);
        lemma_subrange_prefix(s, p, a0, b1);
        BodyParam::lemma_roundtrip(v.body, s, p);
        U32::lemma_roundtrip(v.max_hp, s, p + a0.len());
        U32::lemma_roundtrip(v.max_mp, s, p + a1.len());
        F32::lemma_roundtrip(v.movspeed, s, p + a2.len());
        U32::lemma_roundtrip(v.unk24, s, p + a3.len());
        U32::lemma_roundtrip(v.unk25, s, p + a4.len());
}

fn parse_player_entity_part3(data: &[u8], p: usize) -> (r: Result<((BodyParam, U32, U32, F32, U32, U32,), usize), BinError>)
    requires
        p <= data@.len(),
    ensures
        r matches Ok((_, q)) ==> p <= q <= data@.len(),
        match r {
            Ok((x, q)) => spec_player_entity_part3(data@, p as int) == Ok::<((BodyParam, U32, U32, F32, U32, U32,), int), BinError>(((x.0@, x.1@, x.2@, x.3@, x.4@, x.5@,), q as int)),
            Err(e) => spec_player_entity_part3(data@, p as int) == Err::<((BodyParam, U32, U32, F32, U32, U32,), int), BinError>(e),
        },
{
    reveal(spec_player_entity_part3);
        let (body, p1) = BodyParam::parse(data, p)?;
        let (max_hp, p2) = U32::parse(data, p1)?;
        let (max_mp, p3) = U32::parse(data, p2)?;
        let (movspeed, p4) = F32::parse(data, p3)?;
        let (unk24, p5) = U32::parse(data, p4)?;
        let (unk25, p6) = U32::parse(data, p5)?;
        Ok(((body, max_hp, max_mp, movspeed, unk24, unk25,), p6))
}

impl PlayerEntity {
    fn write_player_entity_part3(&self, out: &mut Vec<u8>)
        ensures
            final(out)@ == old(out)@ + ser_player_entity_part3(self@),
    {
        reveal(ser_player_entity_part3);
            self.body.write(out);
            self.max_hp.write(out);
            self.max_mp.write(out);
            self.movspeed.write(out);
            self.unk24.write(out);
            self.unk25.write(out);
        assert(final(out)@ =~= old(out)@ + ser_player_entity_part3(self@));
    }
}

/// Reading fields `unk26`, `unk27`, `unk28`, `unk29`, `unk30`, `unk31` of [`PlayerEntity`].
#[verifier::opaque]
pub open spec fn spec_player_entity_part4(s: Seq<u8>, p: int) -> SpecRead<(U32, U32, U32, U8, U32, U32,)> {
        match U32::spec_parse(s, p) {
            Err(e) => Err(e),
            Ok((unk26, p1)) => 
            match U32::spec_parse(s, p1) {
                Err(e) => Err(e),
                Ok((unk27, p2)) => 
                match U32::spec_parse(s, p2) {
                    Err(e) => Err(e),
                    Ok((unk28, p3)) => 
                    match U8::spec_parse(s, p3) {
                        Err(e) => Err(e),
                        Ok((unk29, p4)) => 
                        match U32::spec_parse(s, p4) {
                            Err(e) => Err(e),
                            Ok((unk30, p5)) => 
                            match U32::spec_parse(s, p5) {
                                Err(e) => Err(e),
                                Ok((unk31, p6)) => 
                                Ok(((unk26, unk27, unk28, unk29, unk30, unk31,), p6))
                            }
                        }
                    }
                }
            }
        }
}

/// The bytes of fields `unk26`, `unk27`, `unk28`, `unk29`, `unk30`, `unk31` of [`PlayerEntity`].
#[verifier::opaque]
pub open spec fn ser_player_entity_part4(v: PlayerEntityView) -> Seq<u8> {
    (((((U32::spec_ser(v.unk26)) + (U32::spec_ser(v.unk27))) + (U32::spec_ser(v.unk28))) + (U8::spec_ser(v.unk29))) + (U32::spec_ser(v.unk30))) + (U32::spec_ser(v.unk31))
}

#[verifier::opaque]
pub open spec fn wf_player_entity_part4(v: PlayerEntityView) -> bool {
    U32::spec_wf(v.unk26) && U32::spec_wf(v.unk27) && U32::spec_wf(v.unk28) && U8::spec_wf(v.unk29) && U32::spec_wf(v.unk30) && U32::spec_wf(v.unk31)
}

#[verifier::spinoff_prover]
#[verifier::rlimit(100)]
proof fn lemma_player_entity_part4(v: PlayerEntityView, s: Seq<u8>, p: int)
    requires
        wf_player_entity_part4(v),
        0 <= p,
        p + ser_player_entity_part4(v).len() <= s.len(),
        s.subrange(p, p + ser_player_entity_part4(v).len()) == ser_player_entity_part4(v),
    ensures
        spec_player_entity_part4(s, p) == Ok::<((U32, U32, U32, U8, U32, U32,), int), BinError>(((v.unk26, v.unk27, v.unk28, v.unk29, v.unk30, v.unk31,), p + ser_player_entity_part4(v).len())),
{
    reveal(spec_player_entity_part4);
    reveal(ser_player_entity_part4);
    reveal(wf_player_entity_part4);
        let b0 = U32::spec_ser(v.unk26);
        let b1 = U32::spec_ser(v.unk27);
        let b2 = U32::spec_ser(v.unk28);
        let b3 = U8::spec_ser(v.unk29);
        let b4 = U32::spec_ser(v.unk30);
        let b5 = U32::spec_ser(v.unk31);
        let a0 = b0;
        let a1 = a0 + b1;
        let a2 = a1 + b2;
        let a3 = a2 + b3;
        let a4 = a3 + b4;
        let a5 = a4 + b5;
        lemma_subrange_prefix(s, p, a4, b5);
        lemma_subrange_prefix(s, p, a3, b4);
        lemma_subrange_prefix(s, p, a2, b3);
        lemma_subrange_prefix(s, p, a1, b2);
        lemma_subrange_prefix(s, p, a0, b1);
        U32::lemma_roundtrip(v.unk26, s, p);
        U32::lemma_roundtrip(v.unk27, s, p + a0.len());
        U32::lemma_roundtrip(v.unk28, s, p + a1.len());
        U8::lemma_roundtrip(v.unk29, s, p + a2.len());
        U32::lemma_roundtrip(v.unk30, s, p + a3.len());
        U32::lemma_roundtrip(v.unk31, s, p + a4.len());
}

fn parse_player_entity_part4(data: &[u8], p: usize) -> (r: Result<((U32, U32, U32, U8, U32, U32,), usize), BinError>)
    requires
        p <= data@.len(),
    ensures
        r matches Ok((_, q)) ==> p <= q <= data@.len(),
        match r {
            Ok((x, q)) => spec_player_entity_part4(data@, p as int) == Ok::<((U32, U32, U32, U8, U32, U32,), int), BinError>(((x.0@, x.1@, x.2@, x.3@, x.4@, x.5@,), q as int)),
            Err(e) => spec_player_entity_part4(data@, p as int) == Err::<((U32, U32, U32, U8, U32, U32,), int), BinError>(e),
        },
{
    reveal(spec_player_entity_part4);
        let (unk26, p1) = U32::parse(data, p)?;
        let (unk27, p2) = U32::parse(data, p1)?;
        let (unk28, p3) = U32::parse(data, p2)?;
        let (unk29, p4) = U8::parse(data, p3)?;
        let (unk30, p5) = U32::parse(data, p4)?;
        let (unk31, p6) = U32::parse(data, p5)?;
        Ok(((unk26, unk27, unk28, unk29, unk30, unk31,), p6))
}

impl PlayerEntity {
    fn write_player_entity_part4(&self, out: &mut Vec<u8>)
        ensures
            final(out)@ == old(out)@ + ser_player_entity_part4(self@),
    {
        reveal(ser_player_entity_part4);
            self.unk26.write(out);
            self.unk27.write(out);
            self.unk28.write(out);
            self.unk29.write(out);
            self.unk30.write(out);
            self.unk31.write(out);
        assert(final(out)@ =~= old(out)@ + ser_player_entity_part4(self@));
    }
}

/// Reading fields `unk32`, `unk33`, `unk34`, `unk35`, `unk36`, `unk37` of [`PlayerEntity`].
#[verifier::opaque]
pub open spec fn spec_player_entity_part5(s: Seq<u8>, p: int) -> SpecRead<(Seq<char>, U64, U16, U16, RBool, Seq<char>,)> {
        match RString::spec_parse(s, p) {
            Err(e) => Err(e),
            Ok((unk32, p1)) => 
            match U64::spec_parse(s, p1) {
                Err(e) => Err(e),
                Ok((unk33, p2)) => 
                match U16::spec_parse(s, p2) {
                    Err(e) => Err(e),
                    Ok((unk34, p3)) => 
                    match U16::spec_parse(s, p3) {
                        Err(e) => Err(e),
                        Ok((unk35, p4)) => 
                        match RBool::spec_parse(s, p4) {
                            Err(e) => Err(e),
                            Ok((unk36, p5)) => 
                            match RString::spec_parse(s, p5) {
                                Err(e) => Err(e),
                                Ok((unk37, p6)) => 
                                Ok(((unk32, unk33, unk34, unk35, unk36, unk37,), p6))
                            }
                        }
                    }
                }
            }
        }
}

/// The bytes of fields `unk32`, `unk33`, `unk34`, `unk35`, `unk36`, `unk37` of [`PlayerEntity`].
#[verifier::opaque]
pub open spec fn ser_player_entity_part5(v: PlayerEntityView) -> Seq<u8> {
    (((((RString::spec_ser(v.unk32)) + (U64::spec_ser(v.unk33))) + (U16::spec_ser(v.unk34))) + (U16::spec_ser(v.unk35))) + (RBool::spec_ser(v.unk36))) + (RString::spec_ser(v.unk37))
}

#[verifier::opaque]
pub open spec fn wf_player_entity_part5(v: PlayerEntityView) -> bool {
    RString::spec_wf(v.unk32) && U64::spec_wf(v.unk33) && U16::spec_wf(v.unk34) && U16::spec_wf(v.unk35) && RBool::spec_wf(v.unk36) && RString::spec_wf(v.unk37)
}

#[verifier::spinoff_prover]
#[verifier::rlimit(100)]
proof fn lemma_player_entity_part5(v: PlayerEntityView, s: Seq<u8>, p: int)
    requires
        wf_player_entity_part5(v),
        0 <= p,
        p + ser_player_entity_part5(v).len() <= s.len(),
        s.subrange(p, p + ser_player_entity_part5(v).len()) == ser_player_entity_part5(v),
    ensures
        spec_player_entity_part5(s, p) == Ok::<((Seq<char>, U64, U16, U16, RBool, Seq<char>,), int), BinError>(((v.unk32, v.unk33, v.unk34, v.unk35, v.unk36, v.unk37,), p + ser_player_entity_part5(v).len())),
{
    reveal(spec_player_entity_part5);
    reveal(ser_player_entity_part5);
    reveal(wf_player_entity_part5);
        let b0 = RString::spec_ser(v.unk32);
        let b1 = U64::spec_ser(v.unk33);
        let b2 = U16::spec_ser(v.unk34);
        let b3 = U16::spec_ser(v.unk35);
        let b4 = RBool::spec_ser(v.unk36);
        let b5 = RString::spec_ser(v.unk37);
        let a0 = b0;
        let a1 = a0 + b1;
        let a2 = a1 + b2;
        let a3 = a2 + b3;
        let a4 = a3 + b4;
        let a5 = a4 + b5;
        lemma_subrange_prefix(s, p, a4, b5);
        lemma_subrange_prefix(s, p, a3, b4);
        lemma_subrange_prefix(s, p, a2, b3);
        lemma_subrange_prefix(s, p, a1, b2);
        lemma_subrange_prefix(s, p, a0, b1);
        RString::lemma_roundtrip(v.unk32, s, p);
        U64::lemma_roundtrip(v.unk33, s, p + a0.len());
        U16::lemma_roundtrip(v.unk34, s, p + a1.len());
        U16::lemma_roundtrip(v.unk35, s, p + a2.len());
        RBool::lemma_roundtrip(v.unk36, s, p + a3.len());
        RString::lemma_roundtrip(v.unk37, s, p + a4.len());
}

fn parse_player_entity_part5(data: &[u8], p: usize) -> (r: Result<((RString, U64, U16, U16, RBool, RString,), usize), BinError>)
    requires
        p <= data@.len(),
    ensures
        r matches Ok((_, q)) ==> p <= q <= data@.len(),
        match r {
            Ok((x, q)) => spec_player_entity_part5(data@, p as int) == Ok::<((Seq<char>, U64, U16, U16, RBool, Seq<char>,), int), BinError>(((x.0@, x.1@, x.2@, x.3@, x.4@, x.5@,), q as int)),
            Err(e) => spec_player_entity_part5(data@, p as int) == Err::<((Seq<char>, U64, U16, U16, RBool, Seq<char>,), int), BinError>(e),
        },
{
    reveal(spec_player_entity_part5);
        let (unk32, p1) = RString::parse(data, p)?;
        let (unk33, p2) = U64::parse(data, p1)?;
        let (unk34, p3) = U16::parse(data, p2)?;
        let (unk35, p4) = U16::parse(data, p3)?;
        let (unk36, p5) = RBool::parse(data, p4)?;
        let (unk37, p6) = RString::parse(data, p5)?;
        Ok(((unk32, unk33, unk34, unk35, unk36, unk37,), p6))
}

impl PlayerEntity {
    fn write_player_entity_part5(&self, out: &mut Vec<u8>)
        ensures
            final(out)@ == old(out)@ + ser_player_entity_part5(self@),
    {
        reveal(ser_player_entity_part5);
            self.unk32.write(out);
            self.unk33.write(out);
            self.unk34.write(out);
            self.unk35.write(out);
            self.unk36.write(out);
            self.unk37.write(out);
        assert(final(out)@ =~= old(out)@ + ser_player_entity_part5(self@));
    }
}

/// Reading fields `unk38`, `effects`, `unk39`, `current_exp`, `unk41`, `unk42` of [`PlayerEntity`].
#[verifier::opaque]
pub open spec fn spec_player_entity_part6(s: Seq<u8>, p: int) -> SpecRead<(U32, Seq<CameraEffectView>, Seq<u16>, U32, U32, U16,)> {
        match U32::spec_parse(s, p) {
            Err(e) => Err(e),
            Ok((unk38, p1)) => 
            match RVec::<CameraEffect>::spec_parse(s, p1) {
                Err(e) => Err(e),
                Ok((effects, p2)) => 
                match Op13::spec_parse(s, p2) {
                    Err(e) => Err(e),
                    Ok((unk39, p3)) => 
                    match U32::spec_parse(s, p3) {
                        Err(e) => Err(e),
                        Ok((current_exp, p4)) => 
                        match U32::spec_parse(s, p4) {
                            Err(e) => Err(e),
                            Ok((unk41, p5)) => 
                            match U16::spec_parse(s, p5) {
                                Err(e) => Err(e),
                                Ok((unk42, p6)) => 
                                Ok(((unk38, effects, unk39, current_exp, unk41, unk42,), p6))
                            }
                        }
                    }
                }
            }
        }
}

/// The bytes of fields `unk38`, `effects`, `unk39`, `current_exp`, `unk41`, `unk42` of [`PlayerEntity`].
#[verifier::opaque]
pub open spec fn ser_player_entity_part6(v: PlayerEntityView) -> Seq<u8> {
    (((((U32::spec_ser(v.unk38)) + (RVec::<CameraEffect>::spec_ser(v.effects))) + (Op13::spec_ser(v.unk39))) + (U32::spec_ser(v.current_exp))) + (U32::spec_ser(v.unk41))) + (U16::spec_ser(v.unk42))
}

#[verifier::opaque]
pub open spec fn wf_player_entity_part6(v: PlayerEntityView) -> bool {
    U32::spec_wf(v.unk38) && RVec::<CameraEffect>::spec_wf(v.effects) && Op13::spec_wf(v.unk39) && U32::spec_wf(v.current_exp) && U32::spec_wf(v.unk41) && U16::spec_wf(v.unk42)
}

#[verifier::spinoff_prover]
#[verifier::rlimit(100)]
proof fn lemma_player_entity_part6(v: PlayerEntityView, s: Seq<u8>, p: int)
    requires
        wf_player_entity_part6(v),
        0 <= p,
        p + ser_player_entity_part6(v).len() <= s.len(),
        s.subrange(p, p + ser_player_entity_part6(v).len()) == ser_player_entity_part6(v),
    ensures
        spec_player_entity_part6(s, p) == Ok::<((U32, Seq<CameraEffectView>, Seq<u16>, U32, U32, U16,), int), BinError>(((v.unk38, v.effects, v.unk39, v.current_exp, v.unk41, v.unk42,), p + ser_player_entity_part6(v).len())),
{
    reveal(spec_player_entity_part6);
    reveal(ser_player_entity_part6);
    reveal(wf_player_entity_part6);
        let b0 = U32::spec_ser(v.unk38);
        let b1 = RVec::<CameraEffect>::spec_ser(v.effects);
        let b2 = Op13::spec_ser(v.unk39);
        let b3 = U32::spec_ser(v.current_exp);
        let b4 = U32::spec_ser(v.unk41);
        let b5 = U16::spec_ser(v.unk42);
        let a0 = b0;
        let a1 = a0 + b1;
        let a2 = a1 + b2;
        let a3 = a2 + b3;
        let a4 = a3 + b4;
        let a5 = a4 + b5;
        lemma_subrange_prefix(s, p, a4, b5);
        lemma_subrange_prefix(s, p, a3, b4);
        lemma_subrange_prefix(s, p, a2, b3);
        lemma_subrange_prefix(s, p, a1, b2);
        lemma_subrange_prefix(s, p, a0, b1);
        U32::lemma_roundtrip(v.unk38, s, p);
        RVec::<CameraEffect>::lemma_roundtrip(v.effects, s, p + a0.len());
        Op13::lemma_roundtrip(v.unk39, s, p + a1.len());
        U32::lemma_roundtrip(v.current_exp, s, p + a2.len());
        U32::lemma_roundtrip(v.unk41, s, p + a3.len());
        U16::lemma_roundtrip(v.unk42, s, p + a4.len());
}

fn parse_player_entity_part6(data: &[u8], p: usize) -> (r: Result<((U32, RVec<CameraEffect>, Op13, U32, U32, U16,), usize), BinError>)
    requires
        p <= data@.len(),
    ensures
        r matches Ok((_, q)) ==> p <= q <= data@.len(),
        match r {
            Ok((x, q)) => spec_player_entity_part6(data@, p as int) == Ok::<((U32, Seq<CameraEffectView>, Seq<u16>, U32, U32, U16,), int), BinError>(((x.0@, x.1@, x.2@, x.3@, x.4@, x.5@,), q as int)),
            Err(e) => spec_player_entity_part6(data@, p as int) == Err::<((U32, Seq<CameraEffectView>, Seq<u16>, U32, U32, U16,), int), BinError>(e),
        },
{
    reveal(spec_player_entity_part6);
        let (unk38, p1) = U32::parse(data, p)?;
        let (effects, p2) = RVec::<CameraEffect>::parse(data, p1)?;
        let (unk39, p3) = Op13::parse(data, p2)?;
        let (current_exp, p4) = U32::parse(data, p3)?;
        let (unk41, p5) = U32::parse(data, p4)?;
        let (unk42, p6) = U16::parse(data, p5)?;
        Ok(((unk38, effects, unk39, current_exp, unk41, unk42,), p6))
}

impl PlayerEntity {
    fn write_player_entity_part6(&self, out: &mut Vec<u8>)
        ensures
            final(out)@ == old(out)@ + ser_player_entity_part6(self@),
    {
        reveal(ser_player_entity_part6);
            self.unk38.write(out);
            self.effects.write(out);
            self.unk39.write(out);
            self.current_exp.write(out);
            self.unk41.write(out);
            self.unk42.write(out);
        assert(final(out)@ =~= old(out)@ + ser_player_entity_part6(self@));
    }
}

/// Reading fields `stats`, `stats2`, `unk45`, `talents`, `unk47`, `unk48` of [`PlayerEntity`].
#[verifier::opaque]
pub open spec fn spec_player_entity_part7(s: Seq<u8>, p: int) -> SpecRead<(Seq<F32>, Seq<F32>, U64, Seq<U16>, Seq<U16>, U64,)> {
        match RVec::<F32>::spec_parse(s, p) {
            Err(e) => Err(e),
            Ok((stats, p1)) => 
            match spec_items::<F32>(s, p1, stats.len() as nat) {
                Err(e) => Err(e),
                Ok((stats2, p2)) => 
                match U64::spec_parse(s, p2) {
                    Err(e) => Err(e),
                    Ok((unk45, p3)) => 
                    match RVec::<U16>::spec_parse(s, p3) {
                        Err(e) => Err(e),
                        Ok((talents, p4)) => 
                        match RVec::<U16>::spec_parse(s, p4) {
                            Err(e) => Err(e),
                            Ok((unk47, p5)) => 
                            match U64::spec_parse(s, p5) {
                                Err(e) => Err(e),
                                Ok((unk48, p6)) => 
                                Ok(((stats, stats2, unk45, talents, unk47, unk48,), p6))
                            }
                        }
                    }
                }
            }
        }
}

/// The bytes of fields `stats`, `stats2`, `unk45`, `talents`, `unk47`, `unk48` of [`PlayerEntity`].
#[verifier::opaque]
pub open spec fn ser_player_entity_part7(v: PlayerEntityView) -> Seq<u8> {
    (((((RVec::<F32>::spec_ser(v.stats)) + (ser_items::<F32>(v.stats2))) + (U64::spec_ser(v.unk45))) + (RVec::<U16>::spec_ser(v.talents))) + (RVec::<U16>::spec_ser(v.unk47))) + (U64::spec_ser(v.unk48))
}

#[verifier::opaque]
pub open spec fn wf_player_entity_part7(v: PlayerEntityView) -> bool {
    RVec::<F32>::spec_wf(v.stats) && v.stats2.len() == v.stats.len() && (forall|k: int| 0 <= k < v.stats2.len() ==> F32::spec_wf(#[trigger] v.stats2[k])) && U64::spec_wf(v.unk45) && RVec::<U16>::spec_wf(v.talents) && RVec::<U16>::spec_wf(v.unk47) && U64::spec_wf(v.unk48)
}

#[verifier::spinoff_prover]
#[verifier::rlimit(100)]
proof fn lemma_player_entity_part7(v: PlayerEntityView, s: Seq<u8>, p: int)
    requires
        wf_player_entity_part7(v),
        0 <= p,
        p + ser_player_entity_part7(v).len() <= s.len(),
        s.subrange(p, p + ser_player_entity_part7(v).len()) == ser_player_entity_part7(v),
    ensures
        spec_player_entity_part7(s, p) == Ok::<((Seq<F32>, Seq<F32>, U64, Seq<U16>, Seq<U16>, U64,), int), BinError>(((v.stats, v.stats2, v.unk45, v.talents, v.unk47, v.unk48,), p + ser_player_entity_part7(v).len())),
{
    reveal(spec_player_entity_part7);
    reveal(ser_player_entity_part7);
    reveal(wf_player_entity_part7);
        let b0 = RVec::<F32>::spec_ser(v.stats);
        let b1 = ser_items::<F32>(v.stats2);
        let b2 = U64::spec_ser(v.unk45);
        let b3 = RVec::<U16>::spec_ser(v.talents);
        let b4 = RVec::<U16>::spec_ser(v.unk47);
        let b5 = U64::spec_ser(v.unk48);
        let a0 = b0;
        let a1 = a0 + b1;
        let a2 = a1 + b2;
        let a3 = a2 + b3;
        let a4 = a3 + b4;
        let a5 = a4 + b5;
        lemma_subrange_prefix(s, p, a4, b5);
        lemma_subrange_prefix(s, p, a3, b4);
        lemma_subrange_prefix(s, p, a2, b3);
        lemma_subrange_prefix(s, p, a1, b2);
        lemma_subrange_prefix(s, p, a0, b1);
        RVec::<F32>::lemma_roundtrip(v.stats, s, p);
        lemma_items_roundtrip::<F32>(v.stats2, s, p + a0.len());
        U64::lemma_roundtrip(v.unk45, s, p + a1.len());
        RVec::<U16>::lemma_roundtrip(v.talents, s, p + a2.len());
        RVec::<U16>::lemma_roundtrip(v.unk47, s, p + a3.len());
        U64::lemma_roundtrip(v.unk48, s, p + a4.len());
}

fn parse_player_entity_part7(data: &[u8], p: usize) -> (r: Result<((RVec<F32>, Vec<F32>, U64, RVec<U16>, RVec<U16>, U64,), usize), BinError>)
    requires
        p <= data@.len(),
    ensures
        r matches Ok((_, q)) ==> p <= q <= data@.len(),
        match r {
            Ok((x, q)) => spec_player_entity_part7(data@, p as int) == Ok::<((Seq<F32>, Seq<F32>, U64, Seq<U16>, Seq<U16>, U64,), int), BinError>(((x.0@, x.1@, x.2@, x.3@, x.4@, x.5@,), q as int)),
            Err(e) => spec_player_entity_part7(data@, p as int) == Err::<((Seq<F32>, Seq<F32>, U64, Seq<U16>, Seq<U16>, U64,), int), BinError>(e),
        },
{
    reveal(spec_player_entity_part7);
        let (stats, p1) = RVec::<F32>::parse(data, p)?;
        let (stats2, p2) = parse_items::<F32>(data, p1, stats.data.len())?;
        assert(stats2@.map_values(|x: F32| x@) =~= stats2@);
        let (unk45, p3) = U64::parse(data, p2)?;
        let (talents, p4) = RVec::<U16>::parse(data, p3)?;
        let (unk47, p5) = RVec::<U16>::parse(data, p4)?;
        let (unk48, p6) = U64::parse(data, p5)?;
        Ok(((stats, stats2, unk45, talents, unk47, unk48,), p6))
}

impl PlayerEntity {
    fn write_player_entity_part7(&self, out: &mut Vec<u8>)
        ensures
            final(out)@ == old(out)@ + ser_player_entity_part7(self@),
    {
        reveal(ser_player_entity_part7);
            self.stats.write(out);
            write_items::<F32>(out, &self.stats2);
            assert(self.stats2@.map_values(|x: F32| x@) =~= self.stats2@);
            self.unk45.write(out);
            self.talents.write(out);
            self.unk47.write(out);
            self.unk48.write(out);
        assert(final(out)@ =~= old(out)@ + ser_player_entity_part7(self@));
    }
}

/// Reading fields `unk49`, `unk50`, `unk51`, `unk52`, `unk53`, `unk54` of [`PlayerEntity`].
#[verifier::opaque]
pub open spec fn spec_player_entity_part8(s: Seq<u8>, p: int) -> SpecRead<(F32, F32, U16, U16, U32, U32,)> {
        match F32::spec_parse(s, p) {
            Err(e) => Err(e),
            Ok((unk49, p1)) => 
            match F32::spec_parse(s, p1) {
                Err(e) => Err(e),
                Ok((unk50, p2)) => 
                match U16::spec_parse(s, p2) {
                    Err(e) => Err(e),
                    Ok((unk51, p3)) => 
                    match U16::spec_parse(s, p3) {
                        Err(e) => Err(e),
                        Ok((unk52, p4)) => 
                        match U32::spec_parse(s, p4) {
                            Err(e) => Err(e),
                            Ok((unk53, p5)) => 
                            match U32::spec_parse(s, p5) {
                                Err(e) => Err(e),
                                Ok((unk54, p6)) => 
                                Ok(((unk49, unk50, unk51, unk52, unk53, unk54,), p6))
                            }
                        }
                    }
                }
            }
        }
}

/// The bytes of fields `unk49`, `unk50`, `unk51`, `unk52`, `unk53`, `unk54` of [`PlayerEntity`].
#[verifier::opaque]
pub open spec fn ser_player_entity_part8(v: PlayerEntityView) -> Seq<u8> {
    (((((F32::spec_ser(v.unk49)) + (F32::spec_ser(v.unk50))) + (U16::spec_ser(v.unk51))) + (U16::spec_ser(v.unk52))) + (U32::spec_ser(v.unk53))) + (U32::spec_ser(v.unk54))
}

#[verifier::opaque]
pub open spec fn wf_player_entity_part8(v: PlayerEntityView) -> bool {
    F32::spec_wf(v.unk49) && F32::spec_wf(v.unk50) && U16::spec_wf(v.unk51) && U16::spec_wf(v.unk52) && U32::spec_wf(v.unk53) && U32::spec_wf(v.unk54)
}

#[verifier::spinoff_prover]
#[verifier::rlimit(100)]
proof fn lemma_player_entity_part8(v: PlayerEntityView, s: Seq<u8>, p: int)
    requires
        wf_player_entity_part8(v),
        0 <= p,
        p + ser_player_entity_part8(v).len() <= s.len(),
        s.subrange(p, p + ser_player_entity_part8(v).len()) == ser_player_entity_part8(v),
    ensures
        spec_player_entity_part8(s, p) == Ok::<((F32, F32, U16, U16, U32, U32,), int), BinError>(((v.unk49, v.unk50, v.unk51, v.unk52, v.unk53, v.unk54,), p + ser_player_entity_part8(v).len())),
{
    reveal(spec_player_entity_part8);
    reveal(ser_player_entity_part8);
    reveal(wf_player_entity_part8);
        let b0 = F32::spec_ser(v.unk49);
        let b1 = F32::spec_ser(v.unk50);
        let b2 = U16::spec_ser(v.unk51);
        let b3 = U16::spec_ser(v.unk52);
        let b4 = U32::spec_ser(v.unk53);
        let b5 = U32::spec_ser(v.unk54);
        let a0 = b0;
        let a1 = a0 + b1;
        let a2 = a1 + b2;
        let a3 = a2 + b3;
        let a4 = a3 + b4;
        let a5 = a4 + b5;
        lemma_subrange_prefix(s, p, a4, b5);
        lemma_subrange_prefix(s, p, a3, b4);
        lemma_subrange_prefix(s, p, a2, b3);
        lemma_subrange_prefix(s, p, a1, b2);
        lemma_subrange_prefix(s, p, a0, b1);
        F32::lemma_roundtrip(v.unk49, s, p);
        F32::lemma_roundtrip(v.unk50, s, p + a0.len());
        U16::lemma_roundtrip(v.unk51, s, p + a1.len());
        U16::lemma_roundtrip(v.unk52, s, p + a2.len());
        U32::lemma_roundtrip(v.unk53, s, p + a3.len());
        U32::lemma_roundtrip(v.unk54, s, p + a4.len());
}

fn parse_player_entity_part8(data: &[u8], p: usize) -> (r: Result<((F32, F32, U16, U16, U32, U32,), usize), BinError>)
    requires
        p <= data@.len(),
    ensures
        r matches Ok((_, q)) ==> p <= q <= data@.len(),
        match r {
            Ok((x, q)) => spec_player_entity_part8(data@, p as int) == Ok::<((F32, F32, U16, U16, U32, U32,), int), BinError>(((x.0@, x.1@, x.2@, x.3@, x.4@, x.5@,), q as int)),
            Err(e) => spec_player_entity_part8(data@, p as int) == Err::<((F32, F32, U16, U16, U32, U32,), int), BinError>(e),
        },
{
    reveal(spec_player_entity_part8);
        let (unk49, p1) = F32::parse(data, p)?;
        let (unk50, p2) = F32::parse(data, p1)?;
        let (unk51, p3) = U16::parse(data, p2)?;
        let (unk52, p4) = U16::parse(data, p3)?;
        let (unk53, p5) = U32::parse(data, p4)?;
        let (unk54, p6) = U32::parse(data, p5)?;
        Ok(((unk49, unk50, unk51, unk52, unk53, unk54,), p6))
}

impl PlayerEntity {
    fn write_player_entity_part8(&self, out: &mut Vec<u8>)
        ensures
            final(out)@ == old(out)@ + ser_player_entity_part8(self@),
    {
        reveal(ser_player_entity_part8);
            self.unk49.write(out);
            self.unk50.write(out);
            self.unk51.write(out);
            self.unk52.write(out);
            self.unk53.write(out);
            self.unk54.write(out);
        assert(final(out)@ =~= old(out)@ + ser_player_entity_part8(self@));
    }
}

/// Reading fields `unk55`, `unk56`, `unk57` of [`PlayerEntity`].
#[verifier::opaque]
pub open spec fn spec_player_entity_part9(s: Seq<u8>, p: int) -> SpecRead<(U32, Seq<U16>, U16,)> {
        match U32::spec_parse(s, p) {
            Err(e) => Err(e),
            Ok((unk55, p1)) => 
            match U16::spec_parse(s, p1) {
                Err(e) => Err(e),
                Ok((unk56_0, p2)) => 
                match U16::spec_parse(s, p2) {
                    Err(e) => Err(e),
                    Ok((unk56_1, p3)) => 
                    match U16::spec_parse(s, p3) {
                        Err(e) => Err(e),
                        Ok((unk56_2, p4)) => 
                        match U16::spec_parse(s, p4) {
                            Err(e) => Err(e),
                            Ok((unk56_3, p5)) => 
                            { let unk56 = seq![unk56_0, unk56_1, unk56_2, unk56_3]; 
                            match U16::spec_parse(s, p5) {
                                Err(e) => Err(e),
                                Ok((unk57, p6)) => 
                                Ok(((unk55, unk56, unk57,), p6))}
                            }
                        }
                    }
                }
            }
        }
}

/// The bytes of fields `unk55`, `unk56`, `unk57` of [`PlayerEntity`].
#[verifier::opaque]
pub open spec fn ser_player_entity_part9(v: PlayerEntityView) -> Seq<u8> {
    (((((U32::spec_ser(v.unk55)) + (U16::spec_ser(v.unk56[0]))) + (U16::spec_ser(v.unk56[1]))) + (U16::spec_ser(v.unk56[2]))) + (U16::spec_ser(v.unk56[3]))) + (U16::spec_ser(v.unk57))
}

#[verifier::opaque]
pub open spec fn wf_player_entity_part9(v: PlayerEntityView) -> bool {
    U32::spec_wf(v.unk55) && v.unk56.len() == 4 && U16::spec_wf(v.unk57)
}

#[verifier::spinoff_prover]
#[verifier::rlimit(100)]
proof fn lemma_player_entity_part9(v: PlayerEntityView, s: Seq<u8>, p: int)
    requires
        wf_player_entity_part9(v),
        0 <= p,
        p + ser_player_entity_part9(v).len() <= s.len(),
        s.subrange(p, p + ser_player_entity_part9(v).len()) == ser_player_entity_part9(v),
    ensures
        spec_player_entity_part9(s, p) == Ok::<((U32, Seq<U16>, U16,), int), BinError>(((v.unk55, v.unk56, v.unk57,), p + ser_player_entity_part9(v).len())),
{
    reveal(spec_player_entity_part9);
    reveal(ser_player_entity_part9);
    reveal(wf_player_entity_part9);
        let b0 = U32::spec_ser(v.unk55);
        let b1 = U16::spec_ser(v.unk56[0]);
        let b2 = U16::spec_ser(v.unk56[1]);
        let b3 = U16::spec_ser(v.unk56[2]);
        let b4 = U16::spec_ser(v.unk56[3]);
        let b5 = U16::spec_ser(v.unk57);
        let a0 = b0;
        let a1 = a0 + b1;
        let a2 = a1 + b2;
        let a3 = a2 + b3;
        let a4 = a3 + b4;
        let a5 = a4 + b5;
        lemma_subrange_prefix(s, p, a4, b5);
        lemma_subrange_prefix(s, p, a3, b4);
        lemma_subrange_prefix(s, p, a2, b3);
        lemma_subrange_prefix(s, p, a1, b2);
        lemma_subrange_prefix(s, p, a0, b1);
        U32::lemma_roundtrip(v.unk55, s, p);
        U16::lemma_roundtrip(v.unk56[0], s, p + a0.len());
        U16::lemma_roundtrip(v.unk56[1], s, p + a1.len());
        U16::lemma_roundtrip(v.unk56[2], s, p + a2.len());
        U16::lemma_roundtrip(v.unk56[3], s, p + a3.len());
        U16::lemma_roundtrip(v.unk57, s, p + a4.len());
        assert(seq![v.unk56[0], v.unk56[1], v.unk56[2], v.unk56[3]] =~= v.unk56);
}

fn parse_player_entity_part9(data: &[u8], p: usize) -> (r: Result<((U32, [U16; 4], U16,), usize), BinError>)
    requires
        p <= data@.len(),
    ensures
        r matches Ok((_, q)) ==> p <= q <= data@.len(),
        match r {
            Ok((x, q)) => spec_player_entity_part9(data@, p as int) == Ok::<((U32, Seq<U16>, U16,), int), BinError>(((x.0@, x.1@, x.2@,), q as int)),
            Err(e) => spec_player_entity_part9(data@, p as int) == Err::<((U32, Seq<U16>, U16,), int), BinError>(e),
        },
{
    reveal(spec_player_entity_part9);
        let (unk55, p1) = U32::parse(data, p)?;
        let (unk56_0, p2) = U16::parse(data, p1)?;
        let (unk56_1, p3) = U16::parse(data, p2)?;
        let (unk56_2, p4) = U16::parse(data, p3)?;
        let (unk56_3, p5) = U16::parse(data, p4)?;
        let unk56 = [unk56_0, unk56_1, unk56_2, unk56_3];
        assert(unk56@ =~= seq![unk56_0@, unk56_1@, unk56_2@, unk56_3@]);
        let (unk57, p6) = U16::parse(data, p5)?;
        Ok(((unk55, unk56, unk57,), p6))
}

impl PlayerEntity {
    fn write_player_entity_part9(&self, out: &mut Vec<u8>)
        ensures
            final(out)@ == old(out)@ + ser_player_entity_part9(self@),
    {
        reveal(ser_player_entity_part9);
            self.unk55.write(out);
            self.unk56[0].write(out);
            self.unk56[1].write(out);
            self.unk56[2].write(out);
            self.unk56[3].write(out);
            self.unk57.write(out);
        assert(final(out)@ =~= old(out)@ + ser_player_entity_part9(self@));
    }
}

/// Reading fields `unk58`, `unk59`, `unk60` of [`PlayerEntity`].
#[verifier::opaque]
pub open spec fn spec_player_entity_part10(s: Seq<u8>, p: int) -> SpecRead<(Seq<U16>, U16, Seq<u16>,)> {
        match U16::spec_parse(s, p) {
            Err(e) => Err(e),
            Ok((unk58_0, p1)) => 
            match U16::spec_parse(s, p1) {
                Err(e) => Err(e),
                Ok((unk58_1, p2)) => 
                match U16::spec_parse(s, p2) {
                    Err(e) => Err(e),
                    Ok((unk58_2, p3)) => 
                    match U16::spec_parse(s, p3) {
                        Err(e) => Err(e),
                        Ok((unk58_3, p4)) => 
                        { let unk58 = seq![unk58_0, unk58_1, unk58_2, unk58_3]; 
                        match U16::spec_parse(s, p4) {
                            Err(e) => Err(e),
                            Ok((unk59, p5)) => 
                            match CurrencyData::spec_parse(s, p5) {
                                Err(e) => Err(e),
                                Ok((unk60, p6)) => 
                                Ok(((unk58, unk59, unk60,), p6))}
                            }
                        }
                    }
                }
            }
        }
}

/// The bytes of fields `unk58`, `unk59`, `unk60` of [`PlayerEntity`].
#[verifier::opaque]
pub open spec fn ser_player_entity_part10(v: PlayerEntityView) -> Seq<u8> {
    (((((U16::spec_ser(v.unk58[0])) + (U16::spec_ser(v.unk58[1]))) + (U16::spec_ser(v.unk58[2]))) + (U16::spec_ser(v.unk58[3]))) + (U16::spec_ser(v.unk59))) + (CurrencyData::spec_ser(v.unk60))
}

#[verifier::opaque]
pub open spec fn wf_player_entity_part10(v: PlayerEntityView) -> bool {
    v.unk58.len() == 4 && U16::spec_wf(v.unk59) && CurrencyData::spec_wf(v.unk60)
}

#[verifier::spinoff_prover]
#[verifier::rlimit(100)]
proof fn lemma_player_entity_part10(v: PlayerEntityView, s: Seq<u8>, p: int)
    requires
        wf_player_entity_part10(v),
        0 <= p,
        p + ser_player_entity_part10(v).len() <= s.len(),
        s.subrange(p, p + ser_player_entity_part10(v).len()) == ser_player_entity_part10(v),
    ensures
        spec_player_entity_part10(s, p) == Ok::<((Seq<U16>, U16, Seq<u16>,), int), BinError>(((v.unk58, v.unk59, v.unk60,), p + ser_player_entity_part10(v).len())),
{
    reveal(spec_player_entity_part10);
    reveal(ser_player_entity_part10);
    reveal(wf_player_entity_part10);
        let b0 = U16::spec_ser(v.unk58[0]);
        let b1 = U16::spec_ser(v.unk58[1]);
        let b2 = U16::spec_ser(v.unk58[2]);
        let b3 = U16::spec_ser(v.unk58[3]);
        let b4 = U16::spec_ser(v.unk59);
        let b5 = CurrencyData::spec_ser(v.unk60);
        let a0 = b0;
        let a1 = a0 + b1;
        let a2 = a1 + b2;
        let a3 = a2 + b3;
        let a4 = a3 + b4;
        let a5 = a4 + b5;
        lemma_subrange_prefix(s, p, a4, b5);
        lemma_subrange_prefix(s, p, a3, b4);
        lemma_subrange_prefix(s, p, a2, b3);
        lemma_subrange_prefix(s, p, a1, b2);
        lemma_subrange_prefix(s, p, a0, b1);
        U16::lemma_roundtrip(v.unk58[0], s, p);
        U16::lemma_roundtrip(v.unk58[1], s, p + a0.len());
        U16::lemma_roundtrip(v.unk58[2], s, p + a1.len());
        U16::lemma_roundtrip(v.unk58[3], s, p + a2.len());
        U16::lemma_roundtrip(v.unk59, s, p + a3.len());
        CurrencyData::lemma_roundtrip(v.unk60, s, p + a4.len());
        assert(seq![v.unk58[0], v.unk58[1], v.unk58[2], v.unk58[3]] =~= v.unk58);
}

fn parse_player_entity_part10(data: &[u8], p: usize) -> (r: Result<(([U16; 4], U16, CurrencyData,), usize), BinError>)
    requires
        p <= data@.len(),
    ensures
        r matches Ok((_, q)) ==> p <= q <= data@.len(),
        match r {
            Ok((x, q)) => spec_player_entity_part10(data@, p as int) == Ok::<((Seq<U16>, U16, Seq<u16>,), int), BinError>(((x.0@, x.1@, x.2@,), q as int)),
            Err(e) => spec_player_entity_part10(data@, p as int) == Err::<((Seq<U16>, U16, Seq<u16>,), int), BinError>(e),
        },
{
    reveal(spec_player_entity_part10);
        let (unk58_0, p1) = U16::parse(data, p)?;
        let (unk58_1, p2) = U16::parse(data, p1)?;
        let (unk58_2, p3) = U16::parse(data, p2)?;
        let (unk58_3, p4) = U16::parse(data, p3)?;
        let unk58 = [unk58_0, unk58_1, unk58_2, unk58_3];
        assert(unk58@ =~= seq![unk58_0@, unk58_1@, unk58_2@, unk58_3@]);
        let (unk59, p5) = U16::parse(data, p4)?;
        let (unk60, p6) = CurrencyData::parse(data, p5)?;
        Ok(((unk58, unk59, unk60,), p6))
}

impl PlayerEntity {
    fn write_player_entity_part10(&self, out: &mut Vec<u8>)
        ensures
            final(out)@ == old(out)@ + ser_player_entity_part10(self@),
    {
        reveal(ser_player_entity_part10);
            self.unk58[0].write(out);
            self.unk58[1].write(out);
            self.unk58[2].write(out);
            self.unk58[3].write(out);
            self.unk59.write(out);
            self.unk60.write(out);
        assert(final(out)@ =~= old(out)@ + ser_player_entity_part10(self@));
    }
}

/// Reading fields `unk61`, `ach_data` of [`PlayerEntity`].
#[verifier::opaque]
pub open spec fn spec_player_entity_part11(s: Seq<u8>, p: int) -> SpecRead<(U8, Seq<u8>,)> {
        match U8::spec_parse(s, p) {
            Err(e) => Err(e),
            Ok((unk61, p1)) => 
            match RZlib::spec_parse(s, p1) {
                Err(e) => Err(e),
                Ok((ach_data, p2)) => 
                Ok(((unk61, ach_data,), p2))
            }
        }
}

/// The bytes of fields `unk61`, `ach_data` of [`PlayerEntity`].
#[verifier::opaque]
pub open spec fn ser_player_entity_part11(v: PlayerEntityView) -> Seq<u8> {
    (U8::spec_ser(v.unk61)) + (RZlib::spec_ser(v.ach_data))
}

#[verifier::opaque]
pub open spec fn wf_player_entity_part11(v: PlayerEntityView) -> bool {
    U8::spec_wf(v.unk61) && RZlib::spec_wf(v.ach_data)
}

#[verifier::spinoff_prover]
#[verifier::rlimit(100)]
proof fn lemma_player_entity_part11(v: PlayerEntityView, s: Seq<u8>, p: int)
    requires
        wf_player_entity_part11(v),
        0 <= p,
        p + ser_player_entity_part11(v).len() <= s.len(),
        s.subrange(p, p + ser_player_entity_part11(v).len()) == ser_player_entity_part11(v),
    ensures
        spec_player_entity_part11(s, p) == Ok::<((U8, Seq<u8>,), int), BinError>(((v.unk61, v.ach_data,), p + ser_player_entity_part11(v).len())),
{
    reveal(spec_player_entity_part11);
    reveal(ser_player_entity_part11);
    reveal(wf_player_entity_part11);
        let b0 = U8::spec_ser(v.unk61);
        let b1 = RZlib::spec_ser(v.ach_data);
        let a0 = b0;
        let a1 = a0 + b1;
        lemma_subrange_prefix(s, p, a0, b1);
        U8::lemma_roundtrip(v.unk61, s, p);
        RZlib::lemma_roundtrip(v.ach_data, s, p + a0.len());
}

fn parse_player_entity_part11(data: &[u8], p: usize) -> (r: Result<((U8, RZlib,), usize), BinError>)
    requires
        p <= data@.len(),
    ensures
        r matches Ok((_, q)) ==> p <= q <= data@.len(),
        match r {
            Ok((x, q)) => spec_player_entity_part11(data@, p as int) == Ok::<((U8, Seq<u8>,), int), BinError>(((x.0@, x.1@,), q as int)),
            Err(e) => spec_player_entity_part11(data@, p as int) == Err::<((U8, Seq<u8>,), int), BinError>(e),
        },
{
    reveal(spec_player_entity_part11);
        let (unk61, p1) = U8::parse(data, p)?;
        let (ach_data, p2) = RZlib::parse(data, p1)?;
        Ok(((unk61, ach_data,), p2))
}

impl PlayerEntity {
    fn write_player_entity_part11(&self, out: &mut Vec<u8>)
        ensures
            final(out)@ == old(out)@ + ser_player_entity_part11(self@),
    {
        reveal(ser_player_entity_part11);
            self.unk61.write(out);
            self.ach_data.write(out);
        assert(final(out)@ =~= old(out)@ + ser_player_entity_part11(self@));
    }
}

impl Wire for PlayerEntity {
    open spec fn spec_parse(s: Seq<u8>, p: int) -> SpecRead<PlayerEntityView> {
        match spec_player_entity_part0(s, p) {
            Err(e) => Err(e),
            Ok((t0, q0)) => 
            match spec_player_entity_part1(s, q0) {
                Err(e) => Err(e),
                Ok((t1, q1)) => 
                match spec_player_entity_part2(s, q1) {
                    Err(e) => Err(e),
                    Ok((t2, q2)) => 
                    match spec_player_entity_part3(s, q2) {
                        Err(e) => Err(e),
                        Ok((t3, q3)) => 
                        match spec_player_entity_part4(s, q3) {
                            Err(e) => Err(e),
                            Ok((t4, q4)) => 
                            match spec_player_entity_part5(s, q4) {
                                Err(e) => Err(e),
                                Ok((t5, q5)) => 
                                match spec_player_entity_part6(s, q5) {
                                    Err(e) => Err(e),
                                    Ok((t6, q6)) => 
                                    match spec_player_entity_part7(s, q6) {
                                        Err(e) => Err(e),
                                        Ok((t7, q7)) => 
                                        match spec_player_entity_part8(s, q7) {
                                            Err(e) => Err(e),
                                            Ok((t8, q8)) => 
                                            match spec_player_entity_part9(s, q8) {
                                                Err(e) => Err(e),
                                                Ok((t9, q9)) => 
                                                match spec_player_entity_part10(s, q9) {
                                                    Err(e) => Err(e),
                                                    Ok((t10, q10)) => 
                                                    match spec_player_entity_part11(s, q10) {
                                                        Err(e) => Err(e),
                                                        Ok((t11, q11)) => 
                                                        Ok((PlayerEntityView { id: t0.0, class: t0.1, level: t0.2, unk4: t0.3, unk5: t0.4, unk6: t0.5, name: t1.0, hp: t1.1, mp: t1.2, location_id: t1.3, coords: t1.4, unk13: t1.5, rot: t2.0, unk15: t2.1, alive: t2.2, unk17: t2.3, unk18: t2.4, unk19: t2.5, body: t3.0, max_hp: t3.1, max_mp: t3.2, movspeed: t3.3, unk24: t3.4, unk25: t3.5, unk26: t4.0, unk27: t4.1, unk28: t4.2, unk29: t4.3, unk30: t4.4, unk31: t4.5, unk32: t5.0, unk33: t5.1, unk34: t5.2, unk35: t5.3, unk36: t5.4, unk37: t5.5, unk38: t6.0, effects: t6.1, unk39: t6.2, current_exp: t6.3, unk41: t6.4, unk42: t6.5, stats: t7.0, stats2: t7.1, unk45: t7.2, talents: t7.3, unk47: t7.4, unk48: t7.5, unk49: t8.0, unk50: t8.1, unk51: t8.2, unk52: t8.3, unk53: t8.4, unk54: t8.5, unk55: t9.0, unk56: t9.1, unk57: t9.2, unk58: t10.0, unk59: t10.1, unk60: t10.2, unk61: t11.0, ach_data: t11.1 }, q11))
                                                    }
                                                }
                                            }
                                        }
                                    }
                                }
                            }
                        }
                    }
                }
            }
        }
    }

    open spec fn spec_ser(v: PlayerEntityView) -> Seq<u8> {
        (((((((((((ser_player_entity_part0(v)) + (ser_player_entity_part1(v))) + (ser_player_entity_part2(v))) + (ser_player_entity_part3(v))) + (ser_player_entity_part4(v))) + (ser_player_entity_part5(v))) + (ser_player_entity_part6(v))) + (ser_player_entity_part7(v))) + (ser_player_entity_part8(v))) + (ser_player_entity_part9(v))) + (ser_player_entity_part10(v))) + (ser_player_entity_part11(v))
    }

    open spec fn spec_wf(v: PlayerEntityView) -> bool {
        wf_player_entity_part0(v) && wf_player_entity_part1(v) && wf_player_entity_part2(v) && wf_player_entity_part3(v) && wf_player_entity_part4(v) && wf_player_entity_part5(v) && wf_player_entity_part6(v) && wf_player_entity_part7(v) && wf_player_entity_part8(v) && wf_player_entity_part9(v) && wf_player_entity_part10(v) && wf_player_entity_part11(v)
    }

    fn parse(data: &[u8], p: usize) -> (r: Result<(Self, usize), BinError>) {
        let (t0, q0) = parse_player_entity_part0(data, p)?;
        let (t1, q1) = parse_player_entity_part1(data, q0)?;
        let (t2, q2) = parse_player_entity_part2(data, q1)?;
        let (t3, q3) = parse_player_entity_part3(data, q2)?;
        let (t4, q4) = parse_player_entity_part4(data, q3)?;
        let (t5, q5) = parse_player_entity_part5(data, q4)?;
        let (t6, q6) = parse_player_entity_part6(data, q5)?;
        let (t7, q7) = parse_player_entity_part7(data, q6)?;
        let (t8, q8) = parse_player_entity_part8(data, q7)?;
        let (t9, q9) = parse_player_entity_part9(data, q8)?;
        let (t10, q10) = parse_player_entity_part10(data, q9)?;
        let (t11, q11) = parse_player_entity_part11(data, q10)?;
        Ok((PlayerEntity { id: t0.0, class: t0.1, level: t0.2, unk4: t0.3, unk5: t0.4, unk6: t0.5, name: t1.0, hp: t1.1, mp: t1.2, location_id: t1.3, coords: t1.4, unk13: t1.5, rot: t2.0, unk15: t2.1, alive: t2.2, unk17: t2.3, unk18: t2.4, unk19: t2.5, body: t3.0, max_hp: t3.1, max_mp: t3.2, movspeed: t3.3, unk24: t3.4, unk25: t3.5, unk26: t4.0, unk27: t4.1, unk28: t4.2, unk29: t4.3, unk30: t4.4, unk31: t4.5, unk32: t5.0, unk33: t5.1, unk34: t5.2, unk35: t5.3, unk36: t5.4, unk37: t5.5, unk38: t6.0, effects: t6.1, unk39: t6.2, current_exp: t6.3, unk41: t6.4, unk42: t6.5, stats: t7.0, stats2: t7.1, unk45: t7.2, talents: t7.3, unk47: t7.4, unk48: t7.5, unk49: t8.0, unk50: t8.1, unk51: t8.2, unk52: t8.3, unk53: t8.4, unk54: t8.5, unk55: t9.0, unk56: t9.1, unk57: t9.2, unk58: t10.0, unk59: t10.1, unk60: t10.2, unk61: t11.0, ach_data: t11.1 }, q11))
    }

    fn write(&self, out: &mut Vec<u8>) {
        self.write_player_entity_part0(out);
        self.write_player_entity_part1(out);
        self.write_player_entity_part2(out);
        self.write_player_entity_part3(out);
        self.write_player_entity_part4(out);
        self.write_player_entity_part5(out);
        self.write_player_entity_part6(out);
        self.write_player_entity_part7(out);
        self.write_player_entity_part8(out);
        self.write_player_entity_part9(out);
        self.write_player_entity_part10(out);
        self.write_player_entity_part11(out);
        assert(final(out)@ =~= old(out)@ + Self::spec_ser(self@));
    }

    proof fn lemma_roundtrip(v: PlayerEntityView, s: Seq<u8>, p: int) {
        let b0 = ser_player_entity_part0(v);
        let b1 = ser_player_entity_part1(v);
        let b2 = ser_player_entity_part2(v);
        let b3 = ser_player_entity_part3(v);
        let b4 = ser_player_entity_part4(v);
        let b5 = ser_player_entity_part5(v);
        let b6 = ser_player_entity_part6(v);
        let b7 = ser_player_entity_part7(v);
        let b8 = ser_player_entity_part8(v);
        let b9 = ser_player_entity_part9(v);
        let b10 = ser_player_entity_part10(v);
        let b11 = ser_player_entity_part11(v);
        let a0 = b0;
        let a1 = a0 + b1;
        let a2 = a1 + b2;
        let a3 = a2 + b3;
        let a4 = a3 + b4;
        let a5 = a4 + b5;
        let a6 = a5 + b6;
        let a7 = a6 + b7;
        let a8 = a7 + b8;
        let a9 = a8 + b9;
        let a10 = a9 + b10;
        let a11 = a10 + b11;
        lemma_subrange_prefix(s, p, a10, b11);
        lemma_subrange_prefix(s, p, a9, b10);
        lemma_subrange_prefix(s, p, a8, b9);
        lemma_subrange_prefix(s, p, a7, b8);
        lemma_subrange_prefix(s, p, a6, b7);
        lemma_subrange_prefix(s, p, a5, b6);
        lemma_subrange_prefix(s, p, a4, b5);
        lemma_subrange_prefix(s, p, a3, b4);
        lemma_subrange_prefix(s, p, a2, b3);
        lemma_subrange_prefix(s, p, a1, b2);
        lemma_subrange_prefix(s, p, a0, b1);
        lemma_player_entity_part0(v, s, p);
        lemma_player_entity_part1(v, s, p + a0.len());
        lemma_player_entity_part2(v, s, p + a1.len());
        lemma_player_entity_part3(v, s, p + a2.len());
        lemma_player_entity_part4(v, s, p + a3.len());
        lemma_player_entity_part5(v, s, p + a4.len());
        lemma_player_entity_part6(v, s, p + a5.len());
        lemma_player_entity_part7(v, s, p + a6.len());
        lemma_player_entity_part8(v, s, p + a7.len());
        lemma_player_entity_part9(v, s, p + a8.len());
        lemma_player_entity_part10(v, s, p + a9.len());
        lemma_player_entity_part11(v, s, p + a10.len());
    }
}


#[derive(Debug, Clone, PartialEq, Eq)]
pub struct EntityMove {
    pub id: U32,
    pub coords: Coords,
    pub unk12: U16,
    pub flags: U16,
    pub direction: U16,
}

/// Mathematical form of [`EntityMove`].
pub struct EntityMoveView {
    pub id: U32,
    pub coords: CoordsView,
    pub unk12: U16,
    pub flags: U16,
    pub direction: U16,
}

impl View for EntityMove {
    type V = EntityMoveView;

    open spec fn view(&self) -> EntityMoveView {
        EntityMoveView {
            id: self.id@,
            coords: self.coords@,
            unk12: self.unk12@,
            flags: self.flags@,
            direction: self.direction@,
        }
    }
}

impl Wire for EntityMove {
    open spec fn spec_parse(s: Seq<u8>, p: int) -> SpecRead<EntityMoveView> {
        match U32::spec_parse(s, p) {
            Err(e) => Err(e),
            Ok((id, p1)) => 
            match Coords::spec_parse(s, p1) {
                Err(e) => Err(e),
                Ok((coords, p2)) => 
                match U16::spec_parse(s, p2) {
                    Err(e) => Err(e),
                    Ok((unk12, p3)) => 
                    match U16::spec_parse(s, p3) {
                        Err(e) => Err(e),
                        Ok((flags, p4)) => 
                        match U16::spec_parse(s, p4) {
                            Err(e) => Err(e),
                            Ok((direction, p5)) => 
                            Ok((EntityMoveView { id, coords, unk12, flags, direction }, p5))
                        }
                    }
                }
            }
        }
    }

    open spec fn spec_ser(v: EntityMoveView) -> Seq<u8> {
        ((((U32::spec_ser(v.id)) + (Coords::spec_ser(v.coords))) + (U16::spec_ser(v.unk12))) + (U16::spec_ser(v.flags))) + (U16::spec_ser(v.direction))
    }

    open spec fn spec_wf(v: EntityMoveView) -> bool {
        U32::spec_wf(v.id) && Coords::spec_wf(v.coords) && U16::spec_wf(v.unk12) && U16::spec_wf(v.flags) && U16::spec_wf(v.direction)
    }

    fn parse(data: &[u8], p: usize) -> (r: Result<(Self, usize), BinError>) {
        let (id, p1) = U32::parse(data, p)?;
        let (coords, p2) = Coords::parse(data, p1)?;
        let (unk12, p3) = U16::parse(data, p2)?;
        let (flags, p4) = U16::parse(data, p3)?;
        let (direction, p5) = U16::parse(data, p4)?;
        Ok((EntityMove { id, coords, unk12, flags, direction }, p5))
    }

    fn write(&self, out: &mut Vec<u8>) {
        self.id.write(out);
        self.coords.write(out);
        self.unk12.write(out);
        self.flags.write(out);
        self.direction.write(out);
        assert(final(out)@ =~= old(out)@ + Self::spec_ser(self@));
    }

    #[verifier::spinoff_prover]
    #[verifier::rlimit(50)]
    proof fn lemma_roundtrip(v: EntityMoveView, s: Seq<u8>, p: int) {
        let b0 = U32::spec_ser(v.id);
        let b1 = Coords::spec_ser(v.coords);
        let b2 = U16::spec_ser(v.unk12);
        let b3 = U16::spec_ser(v.flags);
        let b4 = U16::spec_ser(v.direction);
        let a0 = b0;
        let a1 = a0 + b1;
        let a2 = a1 + b2;
        let a3 = a2 + b3;
        let a4 = a3 + b4;
        lemma_subrange_prefix(s, p, a3, b4);
        lemma_subrange_prefix(s, p, a2, b3);
        lemma_subrange_prefix(s, p, a1, b2);
        lemma_subrange_prefix(s, p, a0, b1);
        U32::lemma_roundtrip(v.id, s, p);
        Coords::lemma_roundtrip(v.coords, s, p + a0.len());
        U16::lemma_roundtrip(v.unk12, s, p + a1.len());
        U16::lemma_roundtrip(v.flags, s, p + a2.len());
        U16::lemma_roundtrip(v.direction, s, p + a3.len());
    }
}


#[derive(Debug, Clone, PartialEq, Eq)]
pub struct EntityRemove {
    pub id: U32,
}

/// Mathematical form of [`EntityRemove`].
pub struct EntityRemoveView {
    pub id: U32,
}

impl View for EntityRemove {
    type V = EntityRemoveView;

    open spec fn view(&self) -> EntityRemoveView {
        EntityRemoveView {
            id: self.id@,
        }
    }
}

impl Wire for EntityRemove {
    open spec fn spec_parse(s: Seq<u8>, p: int) -> SpecRead<EntityRemoveView> {
        match U32::spec_parse(s, p) {
            Err(e) => Err(e),
            Ok((id, p1)) => 
            Ok((EntityRemoveView { id }, p1))
        }
    }

    open spec fn spec_ser(v: EntityRemoveView) -> Seq<u8> {
        U32::spec_ser(v.id)
    }

    open spec fn spec_wf(v: EntityRemoveView) -> bool {
        U32::spec_wf(v.id)
    }

    fn parse(data: &[u8], p: usize) -> (r: Result<(Self, usize), BinError>) {
        let (id, p1) = U32::parse(data, p)?;
        Ok((EntityRemove { id }, p1))
    }

    fn write(&self, out: &mut Vec<u8>) {
        self.id.write(out);
        assert(final(out)@ =~= old(out)@ + Self::spec_ser(self@));
    }

    #[verifier::spinoff_prover]
    #[verifier::rlimit(50)]
    proof fn lemma_roundtrip(v: EntityRemoveView, s: Seq<u8>, p: int) {
        let b0 = U32::spec_ser(v.id);
        let a0 = b0;
        U32::lemma_roundtrip(v.id, s, p);
    }
}


#[derive(Debug, Clone, PartialEq, Eq)]
pub struct SendChatMessage {
    pub chat_id: Op21,
    pub text: RString,
}

/// Mathematical form of [`SendChatMessage`].
pub struct SendChatMessageView {
    pub chat_id: Op21,
    pub text: Seq<char>,
}

impl View for SendChatMessage {
    type V = SendChatMessageView;

    open spec fn view(&self) -> SendChatMessageView {
        SendChatMessageView {
            chat_id: self.chat_id@,
            text: self.text@,
        }
    }
}

impl Wire for SendChatMessage {
    open spec fn spec_parse(s: Seq<u8>, p: int) -> SpecRead<SendChatMessageView> {
        match Op21::spec_parse(s, p) {
            Err(e) => Err(e),
            Ok((chat_id, p1)) => 
            match RString::spec_parse(s, p1) {
                Err(e) => Err(e),
                Ok((text, p2)) => 
                Ok((SendChatMessageView { chat_id, text }, p2))
            }
        }
    }

    open spec fn spec_ser(v: SendChatMessageView) -> Seq<u8> {
        (Op21::spec_ser(v.chat_id)) + (RString::spec_ser(v.text))
    }

    open spec fn spec_wf(v: SendChatMessageView) -> bool {
        Op21::spec_wf(v.chat_id) && RString::spec_wf(v.text)
    }

    fn parse(data: &[u8], p: usize) -> (r: Result<(Self, usize), BinError>) {
        let (chat_id, p1) = Op21::parse(data, p)?;
        let (text, p2) = RString::parse(data, p1)?;
        Ok((SendChatMessage { chat_id, text }, p2))
    }

    fn write(&self, out: &mut Vec<u8>) {
        self.chat_id.write(out);
        self.text.write(out);
        assert(final(out)@ =~= old(out)@ + Self::spec_ser(self@));
    }

    #[verifier::spinoff_prover]
    #[verifier::rlimit(50)]
    proof fn lemma_roundtrip(v: SendChatMessageView, s: Seq<u8>, p: int) {
        let b0 = Op21::spec_ser(v.chat_id);
        let b1 = RString::spec_ser(v.text);
        let a0 = b0;
        let a1 = a0 + b1;
        lemma_subrange_prefix(s, p, a0, b1);
        Op21::lemma_roundtrip(v.chat_id, s, p);
        RString::lemma_roundtrip(v.text, s, p + a0.len());
    }
}


#[derive(Debug, Clone, PartialEq, Eq)]
pub struct ChatMessage {
    pub chat_id: Op21,
    pub text: RString,
    pub name: RString,
}

/// Mathematical form of [`ChatMessage`].
pub struct ChatMessageView {
    pub chat_id: Op21,
    pub text: Seq<char>,
    pub name: Seq<char>,
}

impl View for ChatMessage {
    type V = ChatMessageView;

    open spec fn view(&self) -> ChatMessageView {
        ChatMessageView {
            chat_id: self.chat_id@,
            text: self.text@,
            name: self.name@,
        }
    }
}

impl Wire for ChatMessage {
    open spec fn spec_parse(s: Seq<u8>, p: int) -> SpecRead<ChatMessageView> {
        match Op21::spec_parse(s, p) {
            Err(e) => Err(e),
            Ok((chat_id, p1)) => 
            match RString::spec_parse(s, p1) {
                Err(e) => Err(e),
                Ok((text, p2)) => 
                match RString::spec_parse(s, p2) {
                    Err(e) => Err(e),
                    Ok((name, p3)) => 
                    Ok((ChatMessageView { chat_id, text, name }, p3))
                }
            }
        }
    }

    open spec fn spec_ser(v: ChatMessageView) -> Seq<u8> {
        ((Op21::spec_ser(v.chat_id)) + (RString::spec_ser(v.text))) + (RString::spec_ser(v.name))
    }

    open spec fn spec_wf(v: ChatMessageView) -> bool {
        Op21::spec_wf(v.chat_id) && RString::spec_wf(v.text) && RString::spec_wf(v.name)
    }

    fn parse(data: &[u8], p: usize) -> (r: Result<(Self, usize), BinError>) {
        let (chat_id, p1) = Op21::parse(data, p)?;
        let (text, p2) = RString::parse(data, p1)?;
        let (name, p3) = RString::parse(data, p2)?;
        Ok((ChatMessage { chat_id, text, name }, p3))
    }

    fn write(&self, out: &mut Vec<u8>) {
        self.chat_id.write(out);
        self.text.write(out);
        self.name.write(out);
        assert(final(out)@ =~= old(out)@ + Self::spec_ser(self@));
    }

    #[verifier::spinoff_prover]
    #[verifier::rlimit(50)]
    proof fn lemma_roundtrip(v: ChatMessageView, s: Seq<u8>, p: int) {
        let b0 = Op21::spec_ser(v.chat_id);
        let b1 = RString::spec_ser(v.text);
        let b2 = RString::spec_ser(v.name);
        let a0 = b0;
        let a1 = a0 + b1;
        let a2 = a1 + b2;
        lemma_subrange_prefix(s, p, a1, b2);
        lemma_subrange_prefix(s, p, a0, b1);
        Op21::lemma_roundtrip(v.chat_id, s, p);
        RString::lemma_roundtrip(v.text, s, p + a0.len());
        RString::lemma_roundtrip(v.name, s, p + a1.len());
    }
}


#[derive(Debug, Clone, PartialEq, Eq)]
pub struct UpdateBalance {
    pub currency: U8,
    pub balance: U64,
}

/// Mathematical form of [`UpdateBalance`].
pub struct UpdateBalanceView {
    pub currency: U8,
    pub balance: U64,
}

impl View for UpdateBalance {
    type V = UpdateBalanceView;

    open spec fn view(&self) -> UpdateBalanceView {
        UpdateBalanceView {
            currency: self.currency@,
            balance: self.balance@,
        }
    }
}

impl Wire for UpdateBalance {
    open spec fn spec_parse(s: Seq<u8>, p: int) -> SpecRead<UpdateBalanceView> {
        match U8::spec_parse(s, p) {
            Err(e) => Err(e),
            Ok((currency, p1)) => 
            match U64::spec_parse(s, p1) {
                Err(e) => Err(e),
                Ok((balance, p2)) => 
                Ok((UpdateBalanceView { currency, balance }, p2))
            }
        }
    }

    open spec fn spec_ser(v: UpdateBalanceView) -> Seq<u8> {
        (U8::spec_ser(v.currency)) + (U64::spec_ser(v.balance))
    }

    open spec fn spec_wf(v: UpdateBalanceView) -> bool {
        U8::spec_wf(v.currency) && U64::spec_wf(v.balance)
    }

    fn parse(data: &[u8], p: usize) -> (r: Result<(Self, usize), BinError>) {
        let (currency, p1) = U8::parse(data, p)?;
        let (balance, p2) = U64::parse(data, p1)?;
        Ok((UpdateBalance { currency, balance }, p2))
    }

    fn write(&self, out: &mut Vec<u8>) {
        self.currency.write(out);
        self.balance.write(out);
        assert(final(out)@ =~= old(out)@ + Self::spec_ser(self@));
    }

    #[verifier::spinoff_prover]
    #[verifier::rlimit(50)]
    proof fn lemma_roundtrip(v: UpdateBalanceView, s: Seq<u8>, p: int) {
        let b0 = U8::spec_ser(v.currency);
        let b1 = U64::spec_ser(v.balance);
        let a0 = b0;
        let a1 = a0 + b1;
        lemma_subrange_prefix(s, p, a0, b1);
        U8::lemma_roundtrip(v.currency, s, p);
        U64::lemma_roundtrip(v.balance, s, p + a0.len());
    }
}


#[derive(Debug, Clone, PartialEq, Eq)]
pub struct SwitchLocation {
    pub location_id: U32,
    pub unk1: U32,
}

/// Mathematical form of [`SwitchLocation`].
pub struct SwitchLocationView {
    pub location_id: U32,
    pub unk1: U32,
}

impl View for SwitchLocation {
    type V = SwitchLocationView;

    open spec fn view(&self) -> SwitchLocationView {
        SwitchLocationView {
            location_id: self.location_id@,
            unk1: self.unk1@,
        }
    }
}

impl Wire for SwitchLocation {
    open spec fn spec_parse(s: Seq<u8>, p: int) -> SpecRead<SwitchLocationView> {
        match U32::spec_parse(s, p) {
            Err(e) => Err(e),
            Ok((location_id, p1)) => 
            match U32::spec_parse(s, p1) {
                Err(e) => Err(e),
                Ok((unk1, p2)) => 
                Ok((SwitchLocationView { location_id, unk1 }, p2))
            }
        }
    }

    open spec fn spec_ser(v: SwitchLocationView) -> Seq<u8> {
        (U32::spec_ser(v.location_id)) + (U32::spec_ser(v.unk1))
    }

    open spec fn spec_wf(v: SwitchLocationView) -> bool {
        U32::spec_wf(v.location_id) && U32::spec_wf(v.unk1)
    }

    fn parse(data: &[u8], p: usize) -> (r: Result<(Self, usize), BinError>) {
        let (location_id, p1) = U32::parse(data, p)?;
        let (unk1, p2) = U32::parse(data, p1)?;
        Ok((SwitchLocation { location_id, unk1 }, p2))
    }

    fn write(&self, out: &mut Vec<u8>) {
        self.location_id.write(out);
        self.unk1.write(out);
        assert(final(out)@ =~= old(out)@ + Self::spec_ser(self@));
    }

    #[verifier::spinoff_prover]
    #[verifier::rlimit(50)]
    proof fn lemma_roundtrip(v: SwitchLocationView, s: Seq<u8>, p: int) {
        let b0 = U32::spec_ser(v.location_id);
        let b1 = U32::spec_ser(v.unk1);
        let a0 = b0;
        let a1 = a0 + b1;
        lemma_subrange_prefix(s, p, a0, b1);
        U32::lemma_roundtrip(v.location_id, s, p);
        U32::lemma_roundtrip(v.unk1, s, p + a0.len());
    }
}


#[derive(Debug, Clone, PartialEq, Eq)]
pub struct PosCamera {
    pub unk0: U32,
    pub coords: Coords,
    pub rot: F32,
    pub unk4: U8,
    /// Need for movement to work
    pub movspeed: F32,
    pub effects: RVec<CameraEffect>,
}

/// Mathematical form of [`PosCamera`].
pub struct PosCameraView {
    pub unk0: U32,
    pub coords: CoordsView,
    pub rot: F32,
    pub unk4: U8,
    pub movspeed: F32,
    pub effects: Seq<CameraEffectView>,
}

impl View for PosCamera {
    type V = PosCameraView;

    open spec fn view(&self) -> PosCameraView {
        PosCameraView {
            unk0: self.unk0@,
            coords: self.coords@,
            rot: self.rot@,
            unk4: self.unk4@,
            movspeed: self.movspeed@,
            effects: self.effects@,
        }
    }
}

impl Wire for PosCamera {
    open spec fn spec_parse(s: Seq<u8>, p: int) -> SpecRead<PosCameraView> {
        match U32::spec_parse(s, p) {
            Err(e) => Err(e),
            Ok((unk0, p1)) => 
            match Coords::spec_parse(s, p1) {
                Err(e) => Err(e),
                Ok((coords, p2)) => 
                match F32::spec_parse(s, p2) {
                    Err(e) => Err(e),
                    Ok((rot, p3)) => 
                    match U8::spec_parse(s, p3) {
                        Err(e) => Err(e),
                        Ok((unk4, p4)) => 
                        match F32::spec_parse(s, p4) {
                            Err(e) => Err(e),
                            Ok((movspeed, p5)) => 
                            match RVec::<CameraEffect>::spec_parse(s, p5) {
                                Err(e) => Err(e),
                                Ok((effects, p6)) => 
                                Ok((PosCameraView { unk0, coords, rot, unk4, movspeed, effects }, p6))
                            }
                        }
                    }
                }
            }
        }
    }

    open spec fn spec_ser(v: PosCameraView) -> Seq<u8> {
        (((((U32::spec_ser(v.unk0)) + (Coords::spec_ser(v.coords))) + (F32::spec_ser(v.rot))) + (U8::spec_ser(v.unk4))) + (F32::spec_ser(v.movspeed))) + (RVec::<CameraEffect>::spec_ser(v.effects))
    }

    open spec fn spec_wf(v: PosCameraView) -> bool {
        U32::spec_wf(v.unk0) && Coords::spec_wf(v.coords) && F32::spec_wf(v.rot) && U8::spec_wf(v.unk4) && F32::spec_wf(v.movspeed) && RVec::<CameraEffect>::spec_wf(v.effects)
    }

    fn parse(data: &[u8], p: usize) -> (r: Result<(Self, usize), BinError>) {
        let (unk0, p1) = U32::parse(data, p)?;
        let (coords, p2) = Coords::parse(data, p1)?;
        let (rot, p3) = F32::parse(data, p2)?;
        let (unk4, p4) = U8::parse(data, p3)?;
        let (movspeed, p5) = F32::parse(data, p4)?;
        let (effects, p6) = RVec::<CameraEffect>::parse(data, p5)?;
        Ok((PosCamera { unk0, coords, rot, unk4, movspeed, effects }, p6))
    }

    fn write(&self, out: &mut Vec<u8>) {
        self.unk0.write(out);
        self.coords.write(out);
        self.rot.write(out);
        self.unk4.write(out);
        self.movspeed.write(out);
        self.effects.write(out);
        assert(final(out)@ =~= old(out)@ + Self::spec_ser(self@));
    }

    #[verifier::spinoff_prover]
    #[verifier::rlimit(50)]
    proof fn lemma_roundtrip(v: PosCameraView, s: Seq<u8>, p: int) {
        let b0 = U32::spec_ser(v.unk0);
        let b1 = Coords::spec_ser(v.coords);
        let b2 = F32::spec_ser(v.rot);
        let b3 = U8::spec_ser(v.unk4);
        let b4 = F32::spec_ser(v.movspeed);
        let b5 = RVec::<CameraEffect>::spec_ser(v.effects);
        let a0 = b0;
        let a1 = a0 + b1;
        let a2 = a1 + b2;
        let a3 = a2 + b3;
        let a4 = a3 + b4;
        let a5 = a4 + b5;
        lemma_subrange_prefix(s, p, a4, b5);
        lemma_subrange_prefix(s, p, a3, b4);
        lemma_subrange_prefix(s, p, a2, b3);
        lemma_subrange_prefix(s, p, a1, b2);
        lemma_subrange_prefix(s, p, a0, b1);
        U32::lemma_roundtrip(v.unk0, s, p);
        Coords::lemma_roundtrip(v.coords, s, p + a0.len());
        F32::lemma_roundtrip(v.rot, s, p + a1.len());
        U8::lemma_roundtrip(v.unk4, s, p + a2.len());
        F32::lemma_roundtrip(v.movspeed, s, p + a3.len());
        RVec::<CameraEffect>::lemma_roundtrip(v.effects, s, p + a4.len());
    }
}


#[derive(Debug, Clone, PartialEq, Eq)]
pub struct CameraEffect {
    pub id: U16,
    pub player_id: U32,
    pub unk2: U32,
    pub v1: Prefixed,
    pub v2: Prefixed,
}

/// Mathematical form of [`CameraEffect`].
pub struct CameraEffectView {
    pub id: U16,
    pub player_id: U32,
    pub unk2: U32,
    pub v1: PrefixedValueView,
    pub v2: PrefixedValueView,
}

impl View for CameraEffect {
    type V = CameraEffectView;

    open spec fn view(&self) -> CameraEffectView {
        CameraEffectView {
            id: self.id@,
            player_id: self.player_id@,
            unk2: self.unk2@,
            v1: self.v1@,
            v2: self.v2@,
        }
    }
}

impl Wire for CameraEffect {
    open spec fn spec_parse(s: Seq<u8>, p: int) -> SpecRead<CameraEffectView> {
        match U16::spec_parse(s, p) {
            Err(e) => Err(e),
            Ok((id, p1)) => 
            match U32::spec_parse(s, p1) {
                Err(e) => Err(e),
                Ok((player_id, p2)) => 
                match U32::spec_parse(s, p2) {
                    Err(e) => Err(e),
                    Ok((unk2, p3)) => 
                    match Prefixed::spec_parse(s, p3) {
                        Err(e) => Err(e),
                        Ok((v1, p4)) => 
                        match Prefixed::spec_parse(s, p4) {
                            Err(e) => Err(e),
                            Ok((v2, p5)) => 
                            Ok((CameraEffectView { id, player_id, unk2, v1, v2 }, p5))
                        }
                    }
                }
            }
        }
    }

    open spec fn spec_ser(v: CameraEffectView) -> Seq<u8> {
        ((((U16::spec_ser(v.id)) + (U32::spec_ser(v.player_id))) + (U32::spec_ser(v.unk2))) + (Prefixed::spec_ser(v.v1))) + (Prefixed::spec_ser(v.v2))
    }

    open spec fn spec_wf(v: CameraEffectView) -> bool {
        U16::spec_wf(v.id) && U32::spec_wf(v.player_id) && U32::spec_wf(v.unk2) && Prefixed::spec_wf(v.v1) && Prefixed::spec_wf(v.v2)
    }

    fn parse(data: &[u8], p: usize) -> (r: Result<(Self, usize), BinError>) {
        let (id, p1) = U16::parse(data, p)?;
        let (player_id, p2) = U32::parse(data, p1)?;
        let (unk2, p3) = U32::parse(data, p2)?;
        let (v1, p4) = Prefixed::parse(data, p3)?;
        let (v2, p5) = Prefixed::parse(data, p4)?;
        Ok((CameraEffect { id, player_id, unk2, v1, v2 }, p5))
    }

    fn write(&self, out: &mut Vec<u8>) {
        self.id.write(out);
        self.player_id.write(out);
        self.unk2.write(out);
        self.v1.write(out);
        self.v2.write(out);
        assert(final(out)@ =~= old(out)@ + Self::spec_ser(self@));
    }

    #[verifier::spinoff_prover]
    #[verifier::rlimit(50)]
    proof fn lemma_roundtrip(v: CameraEffectView, s: Seq<u8>, p: int) {
        let b0 = U16::spec_ser(v.id);
        let b1 = U32::spec_ser(v.player_id);
        let b2 = U32::spec_ser(v.unk2);
        let b3 = Prefixed::spec_ser(v.v1);
        let b4 = Prefixed::spec_ser(v.v2);
        let a0 = b0;
        let a1 = a0 + b1;
        let a2 = a1 + b2;
        let a3 = a2 + b3;
        let a4 = a3 + b4;
        lemma_subrange_prefix(s, p, a3, b4);
        lemma_subrange_prefix(s, p, a2, b3);
        lemma_subrange_prefix(s, p, a1, b2);
        lemma_subrange_prefix(s, p, a0, b1);
        U16::lemma_roundtrip(v.id, s, p);
        U32::lemma_roundtrip(v.player_id, s, p + a0.len());
        U32::lemma_roundtrip(v.unk2, s, p + a1.len());
        Prefixed::lemma_roundtrip(v.v1, s, p + a2.len());
        Prefixed::lemma_roundtrip(v.v2, s, p + a3.len());
    }
}


#[derive(Debug, Clone, PartialEq, Eq)]
pub struct UseAbility {
    pub target_id: U32,
    pub skill_id: U16,
    pub used_item: InvSlot,
    pub unk10: U8,
    pub pos0: Coords,
    pub pos1: Coords,
    pub unk13: U32,
}

/// Mathematical form of [`UseAbility`].
pub struct UseAbilityView {
    pub target_id: U32,
    pub skill_id: U16,
    pub used_item: InvSlot,
    pub unk10: U8,
    pub pos0: CoordsView,
    pub pos1: CoordsView,
    pub unk13: U32,
}

impl View for UseAbility {
    type V = UseAbilityView;

    open spec fn view(&self) -> UseAbilityView {
        UseAbilityView {
            target_id: self.target_id@,
            skill_id: self.skill_id@,
            used_item: self.used_item@,
            unk10: self.unk10@,
            pos0: self.pos0@,
            pos1: self.pos1@,
            unk13: self.unk13@,
        }
    }
}

impl Wire for UseAbility {
    open spec fn spec_parse(s: Seq<u8>, p: int) -> SpecRead<UseAbilityView> {
        match U32::spec_parse(s, p) {
            Err(e) => Err(e),
            Ok((target_id, p1)) => 
            match U16::spec_parse(s, p1) {
                Err(e) => Err(e),
                Ok((skill_id, p2)) => 
                match InvSlot::spec_parse(s, p2) {
                    Err(e) => Err(e),
                    Ok((used_item, p3)) => 
                    match U8::spec_parse(s, p3) {
                        Err(e) => Err(e),
                        Ok((unk10, p4)) => 
                        match Coords::spec_parse(s, p4) {
                            Err(e) => Err(e),
                            Ok((pos0, p5)) => 
                            match Coords::spec_parse(s, p5) {
                                Err(e) => Err(e),
                                Ok((pos1, p6)) => 
                                match U32::spec_parse(s, p6) {
                                    Err(e) => Err(e),
                                    Ok((unk13, p7)) => 
                                    Ok((UseAbilityView { target_id, skill_id, used_item, unk10, pos0, pos1, unk13 }, p7))
                                }
                            }
                        }
                    }
                }
            }
        }
    }

    open spec fn spec_ser(v: UseAbilityView) -> Seq<u8> {
        ((((((U32::spec_ser(v.target_id)) + (U16::spec_ser(v.skill_id))) + (InvSlot::spec_ser(v.used_item))) + (U8::spec_ser(v.unk10))) + (Coords::spec_ser(v.pos0))) + (Coords::spec_ser(v.pos1))) + (U32::spec_ser(v.unk13))
    }

    open spec fn spec_wf(v: UseAbilityView) -> bool {
        U32::spec_wf(v.target_id) && U16::spec_wf(v.skill_id) && InvSlot::spec_wf(v.used_item) && U8::spec_wf(v.unk10) && Coords::spec_wf(v.pos0) && Coords::spec_wf(v.pos1) && U32::spec_wf(v.unk13)
    }

    fn parse(data: &[u8], p: usize) -> (r: Result<(Self, usize), BinError>) {
        let (target_id, p1) = U32::parse(data, p)?;
        let (skill_id, p2) = U16::parse(data, p1)?;
        let (used_item, p3) = InvSlot::parse(data, p2)?;
        let (unk10, p4) = U8::parse(data, p3)?;
        let (pos0, p5) = Coords::parse(data, p4)?;
        let (pos1, p6) = Coords::parse(data, p5)?;
        let (unk13, p7) = U32::parse(data, p6)?;
        Ok((UseAbility { target_id, skill_id, used_item, unk10, pos0, pos1, unk13 }, p7))
    }

    fn write(&self, out: &mut Vec<u8>) {
        self.target_id.write(out);
        self.skill_id.write(out);
        self.used_item.write(out);
        self.unk10.write(out);
        self.pos0.write(out);
        self.pos1.write(out);
        self.unk13.write(out);
        assert(final(out)@ =~= old(out)@ + Self::spec_ser(self@));
    }

    #[verifier::spinoff_prover]
    #[verifier::rlimit(50)]
    proof fn lemma_roundtrip(v: UseAbilityView, s: Seq<u8>, p: int) {
        let b0 = U32::spec_ser(v.target_id);
        let b1 = U16::spec_ser(v.skill_id);
        let b2 = InvSlot::spec_ser(v.used_item);
        let b3 = U8::spec_ser(v.unk10);
        let b4 = Coords::spec_ser(v.pos0);
        let b5 = Coords::spec_ser(v.pos1);
        let b6 = U32::spec_ser(v.unk13);
        let a0 = b0;
        let a1 = a0 + b1;
        let a2 = a1 + b2;
        let a3 = a2 + b3;
        let a4 = a3 + b4;
        let a5 = a4 + b5;
        let a6 = a5 + b6;
        lemma_subrange_prefix(s, p, a5, b6);
        lemma_subrange_prefix(s, p, a4, b5);
        lemma_subrange_prefix(s, p, a3, b4);
        lemma_subrange_prefix(s, p, a2, b3);
        lemma_subrange_prefix(s, p, a1, b2);
        lemma_subrange_prefix(s, p, a0, b1);
        U32::lemma_roundtrip(v.target_id, s, p);
        U16::lemma_roundtrip(v.skill_id, s, p + a0.len());
        InvSlot::lemma_roundtrip(v.used_item, s, p + a1.len());
        U8::lemma_roundtrip(v.unk10, s, p + a2.len());
        Coords::lemma_roundtrip(v.pos0, s, p + a3.len());
        Coords::lemma_roundtrip(v.pos1, s, p + a4.len());
        U32::lemma_roundtrip(v.unk13, s, p + a5.len());
    }
}


#[derive(Debug, Clone, PartialEq, Eq)]
pub struct PickupRequest {
    pub entity_id: U32,
}

/// Mathematical form of [`PickupRequest`].
pub struct PickupRequestView {
    pub entity_id: U32,
}

impl View for PickupRequest {
    type V = PickupRequestView;

    open spec fn view(&self) -> PickupRequestView {
        PickupRequestView {
            entity_id: self.entity_id@,
        }
    }
}

impl Wire for PickupRequest {
    open spec fn spec_parse(s: Seq<u8>, p: int) -> SpecRead<PickupRequestView> {
        match U32::spec_parse(s, p) {
            Err(e) => Err(e),
            Ok((entity_id, p1)) => 
            Ok((PickupRequestView { entity_id }, p1))
        }
    }

    open spec fn spec_ser(v: PickupRequestView) -> Seq<u8> {
        U32::spec_ser(v.entity_id)
    }

    open spec fn spec_wf(v: PickupRequestView) -> bool {
        U32::spec_wf(v.entity_id)
    }

    fn parse(data: &[u8], p: usize) -> (r: Result<(Self, usize), BinError>) {
        let (entity_id, p1) = U32::parse(data, p)?;
        Ok((PickupRequest { entity_id }, p1))
    }

    fn write(&self, out: &mut Vec<u8>) {
        self.entity_id.write(out);
        assert(final(out)@ =~= old(out)@ + Self::spec_ser(self@));
    }

    #[verifier::spinoff_prover]
    #[verifier::rlimit(50)]
    proof fn lemma_roundtrip(v: PickupRequestView, s: Seq<u8>, p: int) {
        let b0 = U32::spec_ser(v.entity_id);
        let a0 = b0;
        U32::lemma_roundtrip(v.entity_id, s, p);
    }
}


#[derive(Debug, Clone, PartialEq, Eq)]
pub struct EntityAction {
    pub entity_id: U32,
    pub skill_id: U16,
    /// Radius/point?
    pub dtype: U16,
    pub param: F32,
    pub pos: Option<Coords>,
    pub target_id: U32,
}

/// Mathematical form of [`EntityAction`].
pub struct EntityActionView {
    pub entity_id: U32,
    pub skill_id: U16,
    pub dtype: U16,
    pub param: F32,
    pub pos: Option<CoordsView>,
    pub target_id: U32,
}

impl View for EntityAction {
    type V = EntityActionView;

    open spec fn view(&self) -> EntityActionView {
        EntityActionView {
            entity_id: self.entity_id@,
            skill_id: self.skill_id@,
            dtype: self.dtype@,
            param: self.param@,
            pos: opt_view(self.pos),
            target_id: self.target_id@,
        }
    }
}

impl Wire for EntityAction {
    open spec fn spec_parse(s: Seq<u8>, p: int) -> SpecRead<EntityActionView> {
        match U32::spec_parse(s, p) {
            Err(e) => Err(e),
            Ok((entity_id, p1)) => 
            match U16::spec_parse(s, p1) {
                Err(e) => Err(e),
                Ok((skill_id, p2)) => 
                match U16::spec_parse(s, p2) {
                    Err(e) => Err(e),
                    Ok((dtype, p3)) => 
                    match F32::spec_parse(s, p3) {
                        Err(e) => Err(e),
                        Ok((param, p4)) => 
                        match (if dtype.0 == 3 { match Coords::spec_parse(s, p4) { Ok((x, q)) => Ok((Some(x), q)), Err(e) => Err(e) } } else { Ok((None, p4)) }) {
                            Err(e) => Err(e),
                            Ok((pos, p5)) => 
                            match U32::spec_parse(s, p5) {
                                Err(e) => Err(e),
                                Ok((target_id, p6)) => 
                                Ok((EntityActionView { entity_id, skill_id, dtype, param, pos, target_id }, p6))
                            }
                        }
                    }
                }
            }
        }
    }

    open spec fn spec_ser(v: EntityActionView) -> Seq<u8> {
        (((((U32::spec_ser(v.entity_id)) + (U16::spec_ser(v.skill_id))) + (U16::spec_ser(v.dtype))) + (F32::spec_ser(v.param))) + (match v.pos { Some(x) => if v.dtype.0 == 3 { Coords::spec_ser(x) } else { Seq::empty() }, None => Seq::empty() })) + (U32::spec_ser(v.target_id))
    }

    open spec fn spec_wf(v: EntityActionView) -> bool {
        U32::spec_wf(v.entity_id) && U16::spec_wf(v.skill_id) && U16::spec_wf(v.dtype) && F32::spec_wf(v.param) && (v.pos is Some <==> v.dtype.0 == 3) && (v.pos matches Some(x) ==> Coords::spec_wf(x)) && U32::spec_wf(v.target_id)
    }

    fn parse(data: &[u8], p: usize) -> (r: Result<(Self, usize), BinError>) {
        let (entity_id, p1) = U32::parse(data, p)?;
        let (skill_id, p2) = U16::parse(data, p1)?;
        let (dtype, p3) = U16::parse(data, p2)?;
        let (param, p4) = F32::parse(data, p3)?;
        let (pos, p5) = if dtype.0 == 3 {
            let (x, q) = Coords::parse(data, p4)?;
            (Some(x), q)
        } else {
            (None, p4)
        };
        let (target_id, p6) = U32::parse(data, p5)?;
        Ok((EntityAction { entity_id, skill_id, dtype, param, pos, target_id }, p6))
    }

    fn write(&self, out: &mut Vec<u8>) {
        self.entity_id.write(out);
        self.skill_id.write(out);
        self.dtype.write(out);
        self.param.write(out);
        if self.dtype.0 == 3 {
            if let Some(x) = &self.pos {
                x.write(out);
            }
        }
        self.target_id.write(out);
        assert(final(out)@ =~= old(out)@ + Self::spec_ser(self@));
    }

    #[verifier::spinoff_prover]
    #[verifier::rlimit(50)]
    proof fn lemma_roundtrip(v: EntityActionView, s: Seq<u8>, p: int) {
        let b0 = U32::spec_ser(v.entity_id);
        let b1 = U16::spec_ser(v.skill_id);
        let b2 = U16::spec_ser(v.dtype);
        let b3 = F32::spec_ser(v.param);
        let b4 = match v.pos { Some(x) => if v.dtype.0 == 3 { Coords::spec_ser(x) } else { Seq::empty() }, None => Seq::empty() };
        let b5 = U32::spec_ser(v.target_id);
        let a0 = b0;
        let a1 = a0 + b1;
        let a2 = a1 + b2;
        let a3 = a2 + b3;
        let a4 = a3 + b4;
        let a5 = a4 + b5;
        lemma_subrange_prefix(s, p, a4, b5);
        lemma_subrange_prefix(s, p, a3, b4);
        lemma_subrange_prefix(s, p, a2, b3);
        lemma_subrange_prefix(s, p, a1, b2);
        lemma_subrange_prefix(s, p, a0, b1);
        U32::lemma_roundtrip(v.entity_id, s, p);
        U16::lemma_roundtrip(v.skill_id, s, p + a0.len());
        U16::lemma_roundtrip(v.dtype, s, p + a1.len());
        F32::lemma_roundtrip(v.param, s, p + a2.len());
        if let Some(x) = v.pos { Coords::lemma_roundtrip(x, s, p + a3.len()); }
        U32::lemma_roundtrip(v.target_id, s, p + a4.len());
    }
}


#[derive(Debug, Clone, PartialEq, Eq)]
pub struct DealtDamage {
    pub target_id: U32,
    pub damager_id: U32,
    pub unk8: U8,
    pub skill_id: U32,
    pub damage: U32,
    pub unk11: U32,
}

/// Mathematical form of [`DealtDamage`].
pub struct DealtDamageView {
    pub target_id: U32,
    pub damager_id: U32,
    pub unk8: U8,
    pub skill_id: U32,
    pub damage: U32,
    pub unk11: U32,
}

impl View for DealtDamage {
    type V = DealtDamageView;

    open spec fn view(&self) -> DealtDamageView {
        DealtDamageView {
            target_id: self.target_id@,
            damager_id: self.damager_id@,
            unk8: self.unk8@,
            skill_id: self.skill_id@,
            damage: self.damage@,
            unk11: self.unk11@,
        }
    }
}

impl Wire for DealtDamage {
    open spec fn spec_parse(s: Seq<u8>, p: int) -> SpecRead<DealtDamageView> {
        match U32::spec_parse(s, p) {
            Err(e) => Err(e),
            Ok((target_id, p1)) => 
            match U32::spec_parse(s, p1) {
                Err(e) => Err(e),
                Ok((damager_id, p2)) => 
                match U8::spec_parse(s, p2) {
                    Err(e) => Err(e),
                    Ok((unk8, p3)) => 
                    match U32::spec_parse(s, p3) {
                        Err(e) => Err(e),
                        Ok((skill_id, p4)) => 
                        match U32::spec_parse(s, p4) {
                            Err(e) => Err(e),
                            Ok((damage, p5)) => 
                            match U32::spec_parse(s, p5) {
                                Err(e) => Err(e),
                                Ok((unk11, p6)) => 
                                Ok((DealtDamageView { target_id, damager_id, unk8, skill_id, damage, unk11 }, p6))
                            }
                        }
                    }
                }
            }
        }
    }

    open spec fn spec_ser(v: DealtDamageView) -> Seq<u8> {
        (((((U32::spec_ser(v.target_id)) + (U32::spec_ser(v.damager_id))) + (U8::spec_ser(v.unk8))) + (U32::spec_ser(v.skill_id))) + (U32::spec_ser(v.damage))) + (U32::spec_ser(v.unk11))
    }

    open spec fn spec_wf(v: DealtDamageView) -> bool {
        U32::spec_wf(v.target_id) && U32::spec_wf(v.damager_id) && U8::spec_wf(v.unk8) && U32::spec_wf(v.skill_id) && U32::spec_wf(v.damage) && U32::spec_wf(v.unk11)
    }

    fn parse(data: &[u8], p: usize) -> (r: Result<(Self, usize), BinError>) {
        let (target_id, p1) = U32::parse(data, p)?;
        let (damager_id, p2) = U32::parse(data, p1)?;
        let (unk8, p3) = U8::parse(data, p2)?;
        let (skill_id, p4) = U32::parse(data, p3)?;
        let (damage, p5) = U32::parse(data, p4)?;
        let (unk11, p6) = U32::parse(data, p5)?;
        Ok((DealtDamage { target_id, damager_id, unk8, skill_id, damage, unk11 }, p6))
    }

    fn write(&self, out: &mut Vec<u8>) {
        self.target_id.write(out);
        self.damager_id.write(out);
        self.unk8.write(out);
        self.skill_id.write(out);
        self.damage.write(out);
        self.unk11.write(out);
        assert(final(out)@ =~= old(out)@ + Self::spec_ser(self@));
    }

    #[verifier::spinoff_prover]
    #[verifier::rlimit(50)]
    proof fn lemma_roundtrip(v: DealtDamageView, s: Seq<u8>, p: int) {
        let b0 = U32::spec_ser(v.target_id);
        let b1 = U32::spec_ser(v.damager_id);
        let b2 = U8::spec_ser(v.unk8);
        let b3 = U32::spec_ser(v.skill_id);
        let b4 = U32::spec_ser(v.damage);
        let b5 = U32::spec_ser(v.unk11);
        let a0 = b0;
        let a1 = a0 + b1;
        let a2 = a1 + b2;
        let a3 = a2 + b3;
        let a4 = a3 + b4;
        let a5 = a4 + b5;
        lemma_subrange_prefix(s, p, a4, b5);
        lemma_subrange_prefix(s, p, a3, b4);
        lemma_subrange_prefix(s, p, a2, b3);
        lemma_subrange_prefix(s, p, a1, b2);
        lemma_subrange_prefix(s, p, a0, b1);
        U32::lemma_roundtrip(v.target_id, s, p);
        U32::lemma_roundtrip(v.damager_id, s, p + a0.len());
        U8::lemma_roundtrip(v.unk8, s, p + a1.len());
        U32::lemma_roundtrip(v.skill_id, s, p + a2.len());
        U32::lemma_roundtrip(v.damage, s, p + a3.len());
        U32::lemma_roundtrip(v.unk11, s, p + a4.len());
    }
}


#[derive(Debug, Clone, PartialEq, Eq)]
pub struct EntityActionPassive {
    pub entity_id: U32,
    pub kind: U16,
    pub unk3: Option<U32>,
    pub unk6: Option<U32>,
    pub target_id: Option<U32>,
}

/// Mathematical form of [`EntityActionPassive`].
pub struct EntityActionPassiveView {
    pub entity_id: U32,
    pub kind: U16,
    pub unk3: Option<U32>,
    pub unk6: Option<U32>,
    pub target_id: Option<U32>,
}

impl View for EntityActionPassive {
    type V = EntityActionPassiveView;

    open spec fn view(&self) -> EntityActionPassiveView {
        EntityActionPassiveView {
            entity_id: self.entity_id@,
            kind: self.kind@,
            unk3: opt_view(self.unk3),
            unk6: opt_view(self.unk6),
            target_id: opt_view(self.target_id),
        }
    }
}

impl Wire for EntityActionPassive {
    open spec fn spec_parse(s: Seq<u8>, p: int) -> SpecRead<EntityActionPassiveView> {
        match U32::spec_parse(s, p) {
            Err(e) => Err(e),
            Ok((entity_id, p1)) => 
            match U16::spec_parse(s, p1) {
                Err(e) => Err(e),
                Ok((kind, p2)) => 
                match (if kind.0 == 3 { match U32::spec_parse(s, p2) { Ok((x, q)) => Ok((Some(x), q)), Err(e) => Err(e) } } else { Ok((None, p2)) }) {
                    Err(e) => Err(e),
                    Ok((unk3, p3)) => 
                    match (if kind.0 == 6 { match U32::spec_parse(s, p3) { Ok((x, q)) => Ok((Some(x), q)), Err(e) => Err(e) } } else { Ok((None, p3)) }) {
                        Err(e) => Err(e),
                        Ok((unk6, p4)) => 
                        match (if kind.0 == 8 { match U32::spec_parse(s, p4) { Ok((x, q)) => Ok((Some(x), q)), Err(e) => Err(e) } } else { Ok((None, p4)) }) {
                            Err(e) => Err(e),
                            Ok((target_id, p5)) => 
                            Ok((EntityActionPassiveView { entity_id, kind, unk3, unk6, target_id }, p5))
                        }
                    }
                }
            }
        }
    }

    open spec fn spec_ser(v: EntityActionPassiveView) -> Seq<u8> {
        ((((U32::spec_ser(v.entity_id)) + (U16::spec_ser(v.kind))) + (match v.unk3 { Some(x) => if v.kind.0 == 3 { U32::spec_ser(x) } else { Seq::empty() }, None => Seq::empty() })) + (match v.unk6 { Some(x) => if v.kind.0 == 6 { U32::spec_ser(x) } else { Seq::empty() }, None => Seq::empty() })) + (match v.target_id { Some(x) => if v.kind.0 == 8 { U32::spec_ser(x) } else { Seq::empty() }, None => Seq::empty() })
    }

    open spec fn spec_wf(v: EntityActionPassiveView) -> bool {
        U32::spec_wf(v.entity_id) && U16::spec_wf(v.kind) && (v.unk3 is Some <==> v.kind.0 == 3) && (v.unk3 matches Some(x) ==> U32::spec_wf(x)) && (v.unk6 is Some <==> v.kind.0 == 6) && (v.unk6 matches Some(x) ==> U32::spec_wf(x)) && (v.target_id is Some <==> v.kind.0 == 8) && (v.target_id matches Some(x) ==> U32::spec_wf(x))
    }

    fn parse(data: &[u8], p: usize) -> (r: Result<(Self, usize), BinError>) {
        let (entity_id, p1) = U32::parse(data, p)?;
        let (kind, p2) = U16::parse(data, p1)?;
        let (unk3, p3) = if kind.0 == 3 {
            let (x, q) = U32::parse(data, p2)?;
            (Some(x), q)
        } else {
            (None, p2)
        };
        let (unk6, p4) = if kind.0 == 6 {
            let (x, q) = U32::parse(data, p3)?;
            (Some(x), q)
        } else {
            (None, p3)
        };
        let (target_id, p5) = if kind.0 == 8 {
            let (x, q) = U32::parse(data, p4)?;
            (Some(x), q)
        } else {
            (None, p4)
        };
        Ok((EntityActionPassive { entity_id, kind, unk3, unk6, target_id }, p5))
    }

    fn write(&self, out: &mut Vec<u8>) {
        self.entity_id.write(out);
        self.kind.write(out);
        if self.kind.0 == 3 {
            if let Some(x) = &self.unk3 {
                x.write(out);
            }
        }
        if self.kind.0 == 6 {
            if let Some(x) = &self.unk6 {
                x.write(out);
            }
        }
        if self.kind.0 == 8 {
            if let Some(x) = &self.target_id {
                x.write(out);
            }
        }
        assert(final(out)@ =~= old(out)@ + Self::spec_ser(self@));
    }

    #[verifier::spinoff_prover]
    #[verifier::rlimit(50)]
    proof fn lemma_roundtrip(v: EntityActionPassiveView, s: Seq<u8>, p: int) {
        let b0 = U32::spec_ser(v.entity_id);
        let b1 = U16::spec_ser(v.kind);
        let b2 = match v.unk3 { Some(x) => if v.kind.0 == 3 { U32::spec_ser(x) } else { Seq::empty() }, None => Seq::empty() };
        let b3 = match v.unk6 { Some(x) => if v.kind.0 == 6 { U32::spec_ser(x) } else { Seq::empty() }, None => Seq::empty() };
        let b4 = match v.target_id { Some(x) => if v.kind.0 == 8 { U32::spec_ser(x) } else { Seq::empty() }, None => Seq::empty() };
        let a0 = b0;
        let a1 = a0 + b1;
        let a2 = a1 + b2;
        let a3 = a2 + b3;
        let a4 = a3 + b4;
        lemma_subrange_prefix(s, p, a3, b4);
        lemma_subrange_prefix(s, p, a2, b3);
        lemma_subrange_prefix(s, p, a1, b2);
        lemma_subrange_prefix(s, p, a0, b1);
        U32::lemma_roundtrip(v.entity_id, s, p);
        U16::lemma_roundtrip(v.kind, s, p + a0.len());
        if let Some(x) = v.unk3 { U32::lemma_roundtrip(x, s, p + a1.len()); }
        if let Some(x) = v.unk6 { U32::lemma_roundtrip(x, s, p + a2.len()); }
        if let Some(x) = v.target_id { U32::lemma_roundtrip(x, s, p + a3.len()); }
    }
}


#[derive(Debug, Clone, PartialEq, Eq)]
pub struct EntityDeath {
    pub id: U32,
}

/// Mathematical form of [`EntityDeath`].
pub struct EntityDeathView {
    pub id: U32,
}

impl View for EntityDeath {
    type V = EntityDeathView;

    open spec fn view(&self) -> EntityDeathView {
        EntityDeathView {
            id: self.id@,
        }
    }
}

impl Wire for EntityDeath {
    open spec fn spec_parse(s: Seq<u8>, p: int) -> SpecRead<EntityDeathView> {
        match U32::spec_parse(s, p) {
            Err(e) => Err(e),
            Ok((id, p1)) => 
            Ok((EntityDeathView { id }, p1))
        }
    }

    open spec fn spec_ser(v: EntityDeathView) -> Seq<u8> {
        U32::spec_ser(v.id)
    }

    open spec fn spec_wf(v: EntityDeathView) -> bool {
        U32::spec_wf(v.id)
    }

    fn parse(data: &[u8], p: usize) -> (r: Result<(Self, usize), BinError>) {
        let (id, p1) = U32::parse(data, p)?;
        Ok((EntityDeath { id }, p1))
    }

    fn write(&self, out: &mut Vec<u8>) {
        self.id.write(out);
        assert(final(out)@ =~= old(out)@ + Self::spec_ser(self@));
    }

    #[verifier::spinoff_prover]
    #[verifier::rlimit(50)]
    proof fn lemma_roundtrip(v: EntityDeathView, s: Seq<u8>, p: int) {
        let b0 = U32::spec_ser(v.id);
        let a0 = b0;
        U32::lemma_roundtrip(v.id, s, p);
    }
}


#[derive(Debug, Clone, PartialEq, Eq)]
pub struct BattleLog {
    /// 4 - receive exp from mob
    /// 8 - receive gold
    pub tag: U8,
}

/// Mathematical form of [`BattleLog`].
pub struct BattleLogView {
    pub tag: U8,
}

impl View for BattleLog {
    type V = BattleLogView;

    open spec fn view(&self) -> BattleLogView {
        BattleLogView {
            tag: self.tag@,
        }
    }
}

impl Wire for BattleLog {
    open spec fn spec_parse(s: Seq<u8>, p: int) -> SpecRead<BattleLogView> {
        match U8::spec_parse(s, p) {
            Err(e) => Err(e),
            Ok((tag, p1)) => 
            Ok((BattleLogView { tag }, p1))
        }
    }

    open spec fn spec_ser(v: BattleLogView) -> Seq<u8> {
        U8::spec_ser(v.tag)
    }

    open spec fn spec_wf(v: BattleLogView) -> bool {
        U8::spec_wf(v.tag)
    }

    fn parse(data: &[u8], p: usize) -> (r: Result<(Self, usize), BinError>) {
        let (tag, p1) = U8::parse(data, p)?;
        Ok((BattleLog { tag }, p1))
    }

    fn write(&self, out: &mut Vec<u8>) {
        self.tag.write(out);
        assert(final(out)@ =~= old(out)@ + Self::spec_ser(self@));
    }

    #[verifier::spinoff_prover]
    #[verifier::rlimit(50)]
    proof fn lemma_roundtrip(v: BattleLogView, s: Seq<u8>, p: int) {
        let b0 = U8::spec_ser(v.tag);
        let a0 = b0;
        U8::lemma_roundtrip(v.tag, s, p);
    }
}


#[derive(Debug, Clone, PartialEq, Eq)]
pub struct StatUpdate {
    pub stat: U32,
    pub value: F32,
    pub unk: F32,
}

/// Mathematical form of [`StatUpdate`].
pub struct StatUpdateView {
    pub stat: U32,
    pub value: F32,
    pub unk: F32,
}

impl View for StatUpdate {
    type V = StatUpdateView;

    open spec fn view(&self) -> StatUpdateView {
        StatUpdateView {
            stat: self.stat@,
            value: self.value@,
            unk: self.unk@,
        }
    }
}

impl Wire for StatUpdate {
    open spec fn spec_parse(s: Seq<u8>, p: int) -> SpecRead<StatUpdateView> {
        match U32::spec_parse(s, p) {
            Err(e) => Err(e),
            Ok((stat, p1)) => 
            match F32::spec_parse(s, p1) {
                Err(e) => Err(e),
                Ok((value, p2)) => 
                match F32::spec_parse(s, p2) {
                    Err(e) => Err(e),
                    Ok((unk, p3)) => 
                    Ok((StatUpdateView { stat, value, unk }, p3))
                }
            }
        }
    }

    open spec fn spec_ser(v: StatUpdateView) -> Seq<u8> {
        ((U32::spec_ser(v.stat)) + (F32::spec_ser(v.value))) + (F32::spec_ser(v.unk))
    }

    open spec fn spec_wf(v: StatUpdateView) -> bool {
        U32::spec_wf(v.stat) && F32::spec_wf(v.value) && F32::spec_wf(v.unk)
    }

    fn parse(data: &[u8], p: usize) -> (r: Result<(Self, usize), BinError>) {
        let (stat, p1) = U32::parse(data, p)?;
        let (value, p2) = F32::parse(data, p1)?;
        let (unk, p3) = F32::parse(data, p2)?;
        Ok((StatUpdate { stat, value, unk }, p3))
    }

    fn write(&self, out: &mut Vec<u8>) {
        self.stat.write(out);
        self.value.write(out);
        self.unk.write(out);
        assert(final(out)@ =~= old(out)@ + Self::spec_ser(self@));
    }

    #[verifier::spinoff_prover]
    #[verifier::rlimit(50)]
    proof fn lemma_roundtrip(v: StatUpdateView, s: Seq<u8>, p: int) {
        let b0 = U32::spec_ser(v.stat);
        let b1 = F32::spec_ser(v.value);
        let b2 = F32::spec_ser(v.unk);
        let a0 = b0;
        let a1 = a0 + b1;
        let a2 = a1 + b2;
        lemma_subrange_prefix(s, p, a1, b2);
        lemma_subrange_prefix(s, p, a0, b1);
        U32::lemma_roundtrip(v.stat, s, p);
        F32::lemma_roundtrip(v.value, s, p + a0.len());
        F32::lemma_roundtrip(v.unk, s, p + a1.len());
    }
}


#[derive(Debug, Clone, PartialEq, Eq)]
pub struct ExperienceAmount {
    pub value: U32,
}

/// Mathematical form of [`ExperienceAmount`].
pub struct ExperienceAmountView {
    pub value: U32,
}

impl View for ExperienceAmount {
    type V = ExperienceAmountView;

    open spec fn view(&self) -> ExperienceAmountView {
        ExperienceAmountView {
            value: self.value@,
        }
    }
}

impl Wire for ExperienceAmount {
    open spec fn spec_parse(s: Seq<u8>, p: int) -> SpecRead<ExperienceAmountView> {
        match U32::spec_parse(s, p) {
            Err(e) => Err(e),
            Ok((value, p1)) => 
            Ok((ExperienceAmountView { value }, p1))
        }
    }

    open spec fn spec_ser(v: ExperienceAmountView) -> Seq<u8> {
        U32::spec_ser(v.value)
    }

    open spec fn spec_wf(v: ExperienceAmountView) -> bool {
        U32::spec_wf(v.value)
    }

    fn parse(data: &[u8], p: usize) -> (r: Result<(Self, usize), BinError>) {
        let (value, p1) = U32::parse(data, p)?;
        Ok((ExperienceAmount { value }, p1))
    }

    fn write(&self, out: &mut Vec<u8>) {
        self.value.write(out);
        assert(final(out)@ =~= old(out)@ + Self::spec_ser(self@));
    }

    #[verifier::spinoff_prover]
    #[verifier::rlimit(50)]
    proof fn lemma_roundtrip(v: ExperienceAmountView, s: Seq<u8>, p: int) {
        let b0 = U32::spec_ser(v.value);
        let a0 = b0;
        U32::lemma_roundtrip(v.value, s, p);
    }
}


#[derive(Debug, Clone, PartialEq, Eq)]
pub struct SkillCooldown {
    pub seconds: F32,
    pub skill_id: U16,
}

/// Mathematical form of [`SkillCooldown`].
pub struct SkillCooldownView {
    pub seconds: F32,
    pub skill_id: U16,
}

impl View for SkillCooldown {
    type V = SkillCooldownView;

    open spec fn view(&self) -> SkillCooldownView {
        SkillCooldownView {
            seconds: self.seconds@,
            skill_id: self.skill_id@,
        }
    }
}

impl Wire for SkillCooldown {
    open spec fn spec_parse(s: Seq<u8>, p: int) -> SpecRead<SkillCooldownView> {
        match F32::spec_parse(s, p) {
            Err(e) => Err(e),
            Ok((seconds, p1)) => 
            match U16::spec_parse(s, p1) {
                Err(e) => Err(e),
                Ok((skill_id, p2)) => 
                Ok((SkillCooldownView { seconds, skill_id }, p2))
            }
        }
    }

    open spec fn spec_ser(v: SkillCooldownView) -> Seq<u8> {
        (F32::spec_ser(v.seconds)) + (U16::spec_ser(v.skill_id))
    }

    open spec fn spec_wf(v: SkillCooldownView) -> bool {
        F32::spec_wf(v.seconds) && U16::spec_wf(v.skill_id)
    }

    fn parse(data: &[u8], p: usize) -> (r: Result<(Self, usize), BinError>) {
        let (seconds, p1) = F32::parse(data, p)?;
        let (skill_id, p2) = U16::parse(data, p1)?;
        Ok((SkillCooldown { seconds, skill_id }, p2))
    }

    fn write(&self, out: &mut Vec<u8>) {
        self.seconds.write(out);
        self.skill_id.write(out);
        assert(final(out)@ =~= old(out)@ + Self::spec_ser(self@));
    }

    #[verifier::spinoff_prover]
    #[verifier::rlimit(50)]
    proof fn lemma_roundtrip(v: SkillCooldownView, s: Seq<u8>, p: int) {
        let b0 = F32::spec_ser(v.seconds);
        let b1 = U16::spec_ser(v.skill_id);
        let a0 = b0;
        let a1 = a0 + b1;
        lemma_subrange_prefix(s, p, a0, b1);
        F32::lemma_roundtrip(v.seconds, s, p);
        U16::lemma_roundtrip(v.skill_id, s, p + a0.len());
    }
}


#[derive(Debug, Clone, PartialEq, Eq)]
pub struct MoveItem {
    pub from: InvSlot,
    pub to: InvSlot,
}

/// Mathematical form of [`MoveItem`].
pub struct MoveItemView {
    pub from: InvSlot,
    pub to: InvSlot,
}

impl View for MoveItem {
    type V = MoveItemView;

    open spec fn view(&self) -> MoveItemView {
        MoveItemView {
            from: self.from@,
            to: self.to@,
        }
    }
}

impl Wire for MoveItem {
    open spec fn spec_parse(s: Seq<u8>, p: int) -> SpecRead<MoveItemView> {
        match InvSlot::spec_parse(s, p) {
            Err(e) => Err(e),
            Ok((from, p1)) => 
            match InvSlot::spec_parse(s, p1) {
                Err(e) => Err(e),
                Ok((to, p2)) => 
                Ok((MoveItemView { from, to }, p2))
            }
        }
    }

    open spec fn spec_ser(v: MoveItemView) -> Seq<u8> {
        (InvSlot::spec_ser(v.from)) + (InvSlot::spec_ser(v.to))
    }

    open spec fn spec_wf(v: MoveItemView) -> bool {
        InvSlot::spec_wf(v.from) && InvSlot::spec_wf(v.to)
    }

    fn parse(data: &[u8], p: usize) -> (r: Result<(Self, usize), BinError>) {
        let (from, p1) = InvSlot::parse(data, p)?;
        let (to, p2) = InvSlot::parse(data, p1)?;
        Ok((MoveItem { from, to }, p2))
    }

    fn write(&self, out: &mut Vec<u8>) {
        self.from.write(out);
        self.to.write(out);
        assert(final(out)@ =~= old(out)@ + Self::spec_ser(self@));
    }

    #[verifier::spinoff_prover]
    #[verifier::rlimit(50)]
    proof fn lemma_roundtrip(v: MoveItemView, s: Seq<u8>, p: int) {
        let b0 = InvSlot::spec_ser(v.from);
        let b1 = InvSlot::spec_ser(v.to);
        let a0 = b0;
        let a1 = a0 + b1;
        lemma_subrange_prefix(s, p, a0, b1);
        InvSlot::lemma_roundtrip(v.from, s, p);
        InvSlot::lemma_roundtrip(v.to, s, p + a0.len());
    }
}


#[derive(Debug, Clone, PartialEq, Eq)]
pub struct ReceiveItem {
    pub unk0: U8,
    pub item: ItemDesc,
}

/// Mathematical form of [`ReceiveItem`].
pub struct ReceiveItemView {
    pub unk0: U8,
    pub item: ItemDescView,
}

impl View for ReceiveItem {
    type V = ReceiveItemView;

    open spec fn view(&self) -> ReceiveItemView {
        ReceiveItemView {
            unk0: self.unk0@,
            item: self.item@,
        }
    }
}

impl Wire for ReceiveItem {
    open spec fn spec_parse(s: Seq<u8>, p: int) -> SpecRead<ReceiveItemView> {
        match U8::spec_parse(s, p) {
            Err(e) => Err(e),
            Ok((unk0, p1)) => 
            match ItemDesc::spec_parse(s, p1) {
                Err(e) => Err(e),
                Ok((item, p2)) => 
                Ok((ReceiveItemView { unk0, item }, p2))
            }
        }
    }

    open spec fn spec_ser(v: ReceiveItemView) -> Seq<u8> {
        (U8::spec_ser(v.unk0)) + (ItemDesc::spec_ser(v.item))
    }

    open spec fn spec_wf(v: ReceiveItemView) -> bool {
        U8::spec_wf(v.unk0) && ItemDesc::spec_wf(v.item)
    }

    fn parse(data: &[u8], p: usize) -> (r: Result<(Self, usize), BinError>) {
        let (unk0, p1) = U8::parse(data, p)?;
        let (item, p2) = ItemDesc::parse(data, p1)?;
        Ok((ReceiveItem { unk0, item }, p2))
    }

    fn write(&self, out: &mut Vec<u8>) {
        self.unk0.write(out);
        self.item.write(out);
        assert(final(out)@ =~= old(out)@ + Self::spec_ser(self@));
    }

    #[verifier::spinoff_prover]
    #[verifier::rlimit(50)]
    proof fn lemma_roundtrip(v: ReceiveItemView, s: Seq<u8>, p: int) {
        let b0 = U8::spec_ser(v.unk0);
        let b1 = ItemDesc::spec_ser(v.item);
        let a0 = b0;
        let a1 = a0 + b1;
        lemma_subrange_prefix(s, p, a0, b1);
        U8::lemma_roundtrip(v.unk0, s, p);
        ItemDesc::lemma_roundtrip(v.item, s, p + a0.len());
    }
}


#[derive(Debug, Clone, PartialEq, Eq)]
pub struct PacketC5 {
    pub unk0: RZlib,
    pub unk1: U32,
}

/// Mathematical form of [`PacketC5`].
pub struct PacketC5View {
    pub unk0: Seq<u8>,
    pub unk1: U32,
}

impl View for PacketC5 {
    type V = PacketC5View;

    open spec fn view(&self) -> PacketC5View {
        PacketC5View {
            unk0: self.unk0@,
            unk1: self.unk1@,
        }
    }
}

impl Wire for PacketC5 {
    open spec fn spec_parse(s: Seq<u8>, p: int) -> SpecRead<PacketC5View> {
        match RZlib::spec_parse(s, p) {
            Err(e) => Err(e),
            Ok((unk0, p1)) => 
            match U32::spec_parse(s, p1) {
                Err(e) => Err(e),
                Ok((unk1, p2)) => 
                Ok((PacketC5View { unk0, unk1 }, p2))
            }
        }
    }

    open spec fn spec_ser(v: PacketC5View) -> Seq<u8> {
        (RZlib::spec_ser(v.unk0)) + (U32::spec_ser(v.unk1))
    }

    open spec fn spec_wf(v: PacketC5View) -> bool {
        RZlib::spec_wf(v.unk0) && U32::spec_wf(v.unk1)
    }

    fn parse(data: &[u8], p: usize) -> (r: Result<(Self, usize), BinError>) {
        let (unk0, p1) = RZlib::parse(data, p)?;
        let (unk1, p2) = U32::parse(data, p1)?;
        Ok((PacketC5 { unk0, unk1 }, p2))
    }

    fn write(&self, out: &mut Vec<u8>) {
        self.unk0.write(out);
        self.unk1.write(out);
        assert(final(out)@ =~= old(out)@ + Self::spec_ser(self@));
    }

    #[verifier::spinoff_prover]
    #[verifier::rlimit(50)]
    proof fn lemma_roundtrip(v: PacketC5View, s: Seq<u8>, p: int) {
        let b0 = RZlib::spec_ser(v.unk0);
        let b1 = U32::spec_ser(v.unk1);
        let a0 = b0;
        let a1 = a0 + b1;
        lemma_subrange_prefix(s, p, a0, b1);
        RZlib::lemma_roundtrip(v.unk0, s, p);
        U32::lemma_roundtrip(v.unk1, s, p + a0.len());
    }
}


#[derive(Debug, Clone, PartialEq, Eq)]
pub struct BuyItemRequest {
    pub id: U32,
    pub quant: U32,
}

/// Mathematical form of [`BuyItemRequest`].
pub struct BuyItemRequestView {
    pub id: U32,
    pub quant: U32,
}

impl View for BuyItemRequest {
    type V = BuyItemRequestView;

    open spec fn view(&self) -> BuyItemRequestView {
        BuyItemRequestView {
            id: self.id@,
            quant: self.quant@,
        }
    }
}

impl Wire for BuyItemRequest {
    open spec fn spec_parse(s: Seq<u8>, p: int) -> SpecRead<BuyItemRequestView> {
        match U32::spec_parse(s, p) {
            Err(e) => Err(e),
            Ok((id, p1)) => 
            match U32::spec_parse(s, p1) {
                Err(e) => Err(e),
                Ok((quant, p2)) => 
                Ok((BuyItemRequestView { id, quant }, p2))
            }
        }
    }

    open spec fn spec_ser(v: BuyItemRequestView) -> Seq<u8> {
        (U32::spec_ser(v.id)) + (U32::spec_ser(v.quant))
    }

    open spec fn spec_wf(v: BuyItemRequestView) -> bool {
        U32::spec_wf(v.id) && U32::spec_wf(v.quant)
    }

    fn parse(data: &[u8], p: usize) -> (r: Result<(Self, usize), BinError>) {
        let (id, p1) = U32::parse(data, p)?;
        let (quant, p2) = U32::parse(data, p1)?;
        Ok((BuyItemRequest { id, quant }, p2))
    }

    fn write(&self, out: &mut Vec<u8>) {
        self.id.write(out);
        self.quant.write(out);
        assert(final(out)@ =~= old(out)@ + Self::spec_ser(self@));
    }

    #[verifier::spinoff_prover]
    #[verifier::rlimit(50)]
    proof fn lemma_roundtrip(v: BuyItemRequestView, s: Seq<u8>, p: int) {
        let b0 = U32::spec_ser(v.id);
        let b1 = U32::spec_ser(v.quant);
        let a0 = b0;
        let a1 = a0 + b1;
        lemma_subrange_prefix(s, p, a0, b1);
        U32::lemma_roundtrip(v.id, s, p);
        U32::lemma_roundtrip(v.quant, s, p + a0.len());
    }
}


#[derive(Debug, Clone, PartialEq, Eq)]
pub struct SellItemRequest {
    pub slot: InvSlot,
}

/// Mathematical form of [`SellItemRequest`].
pub struct SellItemRequestView {
    pub slot: InvSlot,
}

impl View for SellItemRequest {
    type V = SellItemRequestView;

    open spec fn view(&self) -> SellItemRequestView {
        SellItemRequestView {
            slot: self.slot@,
        }
    }
}

impl Wire for SellItemRequest {
    open spec fn spec_parse(s: Seq<u8>, p: int) -> SpecRead<SellItemRequestView> {
        match InvSlot::spec_parse(s, p) {
            Err(e) => Err(e),
            Ok((slot, p1)) => 
            Ok((SellItemRequestView { slot }, p1))
        }
    }

    open spec fn spec_ser(v: SellItemRequestView) -> Seq<u8> {
        InvSlot::spec_ser(v.slot)
    }

    open spec fn spec_wf(v: SellItemRequestView) -> bool {
        InvSlot::spec_wf(v.slot)
    }

    fn parse(data: &[u8], p: usize) -> (r: Result<(Self, usize), BinError>) {
        let (slot, p1) = InvSlot::parse(data, p)?;
        Ok((SellItemRequest { slot }, p1))
    }

    fn write(&self, out: &mut Vec<u8>) {
        self.slot.write(out);
        assert(final(out)@ =~= old(out)@ + Self::spec_ser(self@));
    }

    #[verifier::spinoff_prover]
    #[verifier::rlimit(50)]
    proof fn lemma_roundtrip(v: SellItemRequestView, s: Seq<u8>, p: int) {
        let b0 = InvSlot::spec_ser(v.slot);
        let a0 = b0;
        InvSlot::lemma_roundtrip(v.slot, s, p);
    }
}


#[derive(Debug, Clone, PartialEq, Eq)]
pub struct BuyBack {
    pub index: U32,
}

/// Mathematical form of [`BuyBack`].
pub struct BuyBackView {
    pub index: U32,
}

impl View for BuyBack {
    type V = BuyBackView;

    open spec fn view(&self) -> BuyBackView {
        BuyBackView {
            index: self.index@,
        }
    }
}

impl Wire for BuyBack {
    open spec fn spec_parse(s: Seq<u8>, p: int) -> SpecRead<BuyBackView> {
        match U32::spec_parse(s, p) {
            Err(e) => Err(e),
            Ok((index, p1)) => 
            Ok((BuyBackView { index }, p1))
        }
    }

    open spec fn spec_ser(v: BuyBackView) -> Seq<u8> {
        U32::spec_ser(v.index)
    }

    open spec fn spec_wf(v: BuyBackView) -> bool {
        U32::spec_wf(v.index)
    }

    fn parse(data: &[u8], p: usize) -> (r: Result<(Self, usize), BinError>) {
        let (index, p1) = U32::parse(data, p)?;
        Ok((BuyBack { index }, p1))
    }

    fn write(&self, out: &mut Vec<u8>) {
        self.index.write(out);
        assert(final(out)@ =~= old(out)@ + Self::spec_ser(self@));
    }

    #[verifier::spinoff_prover]
    #[verifier::rlimit(50)]
    proof fn lemma_roundtrip(v: BuyBackView, s: Seq<u8>, p: int) {
        let b0 = U32::spec_ser(v.index);
        let a0 = b0;
        U32::lemma_roundtrip(v.index, s, p);
    }
}


#[derive(Debug, Clone, PartialEq, Eq)]
pub struct ShowEmotion {
    pub emo: RString,
}

/// Mathematical form of [`ShowEmotion`].
pub struct ShowEmotionView {
    pub emo: Seq<char>,
}

impl View for ShowEmotion {
    type V = ShowEmotionView;

    open spec fn view(&self) -> ShowEmotionView {
        ShowEmotionView {
            emo: self.emo@,
        }
    }
}

impl Wire for ShowEmotion {
    open spec fn spec_parse(s: Seq<u8>, p: int) -> SpecRead<ShowEmotionView> {
        match RString::spec_parse(s, p) {
            Err(e) => Err(e),
            Ok((emo, p1)) => 
            Ok((ShowEmotionView { emo }, p1))
        }
    }

    open spec fn spec_ser(v: ShowEmotionView) -> Seq<u8> {
        RString::spec_ser(v.emo)
    }

    open spec fn spec_wf(v: ShowEmotionView) -> bool {
        RString::spec_wf(v.emo)
    }

    fn parse(data: &[u8], p: usize) -> (r: Result<(Self, usize), BinError>) {
        let (emo, p1) = RString::parse(data, p)?;
        Ok((ShowEmotion { emo }, p1))
    }

    fn write(&self, out: &mut Vec<u8>) {
        self.emo.write(out);
        assert(final(out)@ =~= old(out)@ + Self::spec_ser(self@));
    }

    #[verifier::spinoff_prover]
    #[verifier::rlimit(50)]
    proof fn lemma_roundtrip(v: ShowEmotionView, s: Seq<u8>, p: int) {
        let b0 = RString::spec_ser(v.emo);
        let a0 = b0;
        RString::lemma_roundtrip(v.emo, s, p);
    }
}


#[derive(Debug, Clone, PartialEq, Eq)]
pub struct StatUpdateRequest {
    /// 0 - accuracy
    /// 35 - dexterity
    /// 156 - stamina
    pub stat: U32,
    pub value_add: U32,
}

/// Mathematical form of [`StatUpdateRequest`].
pub struct StatUpdateRequestView {
    pub stat: U32,
    pub value_add: U32,
}

impl View for StatUpdateRequest {
    type V = StatUpdateRequestView;

    open spec fn view(&self) -> StatUpdateRequestView {
        StatUpdateRequestView {
            stat: self.stat@,
            value_add: self.value_add@,
        }
    }
}

impl Wire for StatUpdateRequest {
    open spec fn spec_parse(s: Seq<u8>, p: int) -> SpecRead<StatUpdateRequestView> {
        match U32::spec_parse(s, p) {
            Err(e) => Err(e),
            Ok((stat, p1)) => 
            match U32::spec_parse(s, p1) {
                Err(e) => Err(e),
                Ok((value_add, p2)) => 
                Ok((StatUpdateRequestView { stat, value_add }, p2))
            }
        }
    }

    open spec fn spec_ser(v: StatUpdateRequestView) -> Seq<u8> {
        (U32::spec_ser(v.stat)) + (U32::spec_ser(v.value_add))
    }

    open spec fn spec_wf(v: StatUpdateRequestView) -> bool {
        U32::spec_wf(v.stat) && U32::spec_wf(v.value_add)
    }

    fn parse(data: &[u8], p: usize) -> (r: Result<(Self, usize), BinError>) {
        let (stat, p1) = U32::parse(data, p)?;
        let (value_add, p2) = U32::parse(data, p1)?;
        Ok((StatUpdateRequest { stat, value_add }, p2))
    }

    fn write(&self, out: &mut Vec<u8>) {
        self.stat.write(out);
        self.value_add.write(out);
        assert(final(out)@ =~= old(out)@ + Self::spec_ser(self@));
    }

    #[verifier::spinoff_prover]
    #[verifier::rlimit(50)]
    proof fn lemma_roundtrip(v: StatUpdateRequestView, s: Seq<u8>, p: int) {
        let b0 = U32::spec_ser(v.stat);
        let b1 = U32::spec_ser(v.value_add);
        let a0 = b0;
        let a1 = a0 + b1;
        lemma_subrange_prefix(s, p, a0, b1);
        U32::lemma_roundtrip(v.stat, s, p);
        U32::lemma_roundtrip(v.value_add, s, p + a0.len());
    }
}


#[derive(Debug, Clone, PartialEq, Eq)]
pub struct Heartbeat2 {
    /// Probably, milliseconds
    pub client_uptime: U32,
}

/// Mathematical form of [`Heartbeat2`].
pub struct Heartbeat2View {
    pub client_uptime: U32,
}

impl View for Heartbeat2 {
    type V = Heartbeat2View;

    open spec fn view(&self) -> Heartbeat2View {
        Heartbeat2View {
            client_uptime: self.client_uptime@,
        }
    }
}

impl Wire for Heartbeat2 {
    open spec fn spec_parse(s: Seq<u8>, p: int) -> SpecRead<Heartbeat2View> {
        match U32::spec_parse(s, p) {
            Err(e) => Err(e),
            Ok((client_uptime, p1)) => 
            Ok((Heartbeat2View { client_uptime }, p1))
        }
    }

    open spec fn spec_ser(v: Heartbeat2View) -> Seq<u8> {
        U32::spec_ser(v.client_uptime)
    }

    open spec fn spec_wf(v: Heartbeat2View) -> bool {
        U32::spec_wf(v.client_uptime)
    }

    fn parse(data: &[u8], p: usize) -> (r: Result<(Self, usize), BinError>) {
        let (client_uptime, p1) = U32::parse(data, p)?;
        Ok((Heartbeat2 { client_uptime }, p1))
    }

    fn write(&self, out: &mut Vec<u8>) {
        self.client_uptime.write(out);
        assert(final(out)@ =~= old(out)@ + Self::spec_ser(self@));
    }

    #[verifier::spinoff_prover]
    #[verifier::rlimit(50)]
    proof fn lemma_roundtrip(v: Heartbeat2View, s: Seq<u8>, p: int) {
        let b0 = U32::spec_ser(v.client_uptime);
        let a0 = b0;
        U32::lemma_roundtrip(v.client_uptime, s, p);
    }
}


#[derive(Debug, Clone, PartialEq, Eq)]
pub struct ExitRequest {
    /// Exit type:
    /// 0 - to character selection
    /// 1 - to main menu
    /// 2 - exit game
    pub code: U32,
}

/// Mathematical form of [`ExitRequest`].
pub struct ExitRequestView {
    pub code: U32,
}

impl View for ExitRequest {
    type V = ExitRequestView;

    open spec fn view(&self) -> ExitRequestView {
        ExitRequestView {
            code: self.code@,
        }
    }
}

impl Wire for ExitRequest {
    open spec fn spec_parse(s: Seq<u8>, p: int) -> SpecRead<ExitRequestView> {
        match U32::spec_parse(s, p) {
            Err(e) => Err(e),
            Ok((code, p1)) => 
            Ok((ExitRequestView { code }, p1))
        }
    }

    open spec fn spec_ser(v: ExitRequestView) -> Seq<u8> {
        U32::spec_ser(v.code)
    }

    open spec fn spec_wf(v: ExitRequestView) -> bool {
        U32::spec_wf(v.code)
    }

    fn parse(data: &[u8], p: usize) -> (r: Result<(Self, usize), BinError>) {
        let (code, p1) = U32::parse(data, p)?;
        Ok((ExitRequest { code }, p1))
    }

    fn write(&self, out: &mut Vec<u8>) {
        self.code.write(out);
        assert(final(out)@ =~= old(out)@ + Self::spec_ser(self@));
    }

    #[verifier::spinoff_prover]
    #[verifier::rlimit(50)]
    proof fn lemma_roundtrip(v: ExitRequestView, s: Seq<u8>, p: int) {
        let b0 = U32::spec_ser(v.code);
        let a0 = b0;
        U32::lemma_roundtrip(v.code, s, p);
    }
}


#[derive(Debug, Clone, PartialEq, Eq)]
pub struct ExitResponse {
    /// Seconds
    pub delay: U32,
}

/// Mathematical form of [`ExitResponse`].
pub struct ExitResponseView {
    pub delay: U32,
}

impl View for ExitResponse {
    type V = ExitResponseView;

    open spec fn view(&self) -> ExitResponseView {
        ExitResponseView {
            delay: self.delay@,
        }
    }
}

impl Wire for ExitResponse {
    open spec fn spec_parse(s: Seq<u8>, p: int) -> SpecRead<ExitResponseView> {
        match U32::spec_parse(s, p) {
            Err(e) => Err(e),
            Ok((delay, p1)) => 
            Ok((ExitResponseView { delay }, p1))
        }
    }

    open spec fn spec_ser(v: ExitResponseView) -> Seq<u8> {
        U32::spec_ser(v.delay)
    }

    open spec fn spec_wf(v: ExitResponseView) -> bool {
        U32::spec_wf(v.delay)
    }

    fn parse(data: &[u8], p: usize) -> (r: Result<(Self, usize), BinError>) {
        let (delay, p1) = U32::parse(data, p)?;
        Ok((ExitResponse { delay }, p1))
    }

    fn write(&self, out: &mut Vec<u8>) {
        self.delay.write(out);
        assert(final(out)@ =~= old(out)@ + Self::spec_ser(self@));
    }

    #[verifier::spinoff_prover]
    #[verifier::rlimit(50)]
    proof fn lemma_roundtrip(v: ExitResponseView, s: Seq<u8>, p: int) {
        let b0 = U32::spec_ser(v.delay);
        let a0 = b0;
        U32::lemma_roundtrip(v.delay, s, p);
    }
}


/// The value of a [`Prefixed`], by its one-byte kind: 0 empty, 1 a u8,
/// 2 a u16, 3 a float, 0xF two floats.
#[derive(Debug, Clone, Copy, PartialEq, Eq)]
pub enum PrefixedValue {
    Empty,
    U8(U8),
    U16(U16),
    F32(F32),
    F32x2([F32; 2]),
}

/// Mathematical form of [`PrefixedValue`].
pub enum PrefixedValueView {
    Empty,
    U8(U8),
    U16(U16),
    F32(F32),
    F32x2(Seq<F32>),
}

impl View for PrefixedValue {
    type V = PrefixedValueView;

    open spec fn view(&self) -> PrefixedValueView {
        match self {
            PrefixedValue::Empty => PrefixedValueView::Empty,
            PrefixedValue::U8(x) => PrefixedValueView::U8(*x),
            PrefixedValue::U16(x) => PrefixedValueView::U16(*x),
            PrefixedValue::F32(x) => PrefixedValueView::F32(*x),
            PrefixedValue::F32x2(x) => PrefixedValueView::F32x2(x@),
        }
    }
}

/// The kind byte of a prefixed value.
pub open spec fn spec_prefix(v: PrefixedValueView) -> u8 {
    match v {
        PrefixedValueView::Empty => 0,
        PrefixedValueView::U8(_) => 1,
        PrefixedValueView::U16(_) => 2,
        PrefixedValueView::F32(_) => 3,
        PrefixedValueView::F32x2(_) => 0xF,
    }
}

impl PrefixedValue {
    /// The kind byte of this value.
    pub fn prefix(&self) -> (r: u8)
        ensures
            r == spec_prefix(self@),
    {
        match self {
            PrefixedValue::Empty => 0,
            PrefixedValue::U8(_) => 1,
            PrefixedValue::U16(_) => 2,
            PrefixedValue::F32(_) => 3,
            PrefixedValue::F32x2(_) => 0xF,
        }
    }
}

/// A value preceded by a one-byte kind element.
#[derive(Debug, Clone, PartialEq, Eq)]
pub struct Prefixed {
    pub value: PrefixedValue,
}

impl View for Prefixed {
    type V = PrefixedValueView;

    open spec fn view(&self) -> PrefixedValueView {
        self.value@
    }
}

/// The bytes of a prefixed value after its kind element.
pub open spec fn ser_prefixed_body(v: PrefixedValueView) -> Seq<u8> {
    match v {
        PrefixedValueView::Empty => Seq::empty(),
        PrefixedValueView::U8(x) => U8::spec_ser(x),
        PrefixedValueView::U16(x) => U16::spec_ser(x),
        PrefixedValueView::F32(x) => F32::spec_ser(x),
        PrefixedValueView::F32x2(x) => F32::spec_ser(x[0]) + F32::spec_ser(x[1]),
    }
}

impl Wire for Prefixed {
    /// A kind that names no value, or a value that fails to read, gives
    /// `NoVariant`.
    open spec fn spec_parse(s: Seq<u8>, p: int) -> SpecRead<PrefixedValueView> {
        match U8::spec_parse(s, p) {
            Err(e) => Err(e),
            Ok((k, q)) => if k.0 == 0 {
                Ok((PrefixedValueView::Empty, q))
            } else if k.0 == 1 {
                match U8::spec_parse(s, q) {
                    Ok((x, r)) => Ok((PrefixedValueView::U8(x), r)),
                    Err(_) => Err(BinError::NoVariant),
                }
            } else if k.0 == 2 {
                match U16::spec_parse(s, q) {
                    Ok((x, r)) => Ok((PrefixedValueView::U16(x), r)),
                    Err(_) => Err(BinError::NoVariant),
                }
            } else if k.0 == 3 {
                match F32::spec_parse(s, q) {
                    Ok((x, r)) => Ok((PrefixedValueView::F32(x), r)),
                    Err(_) => Err(BinError::NoVariant),
                }
            } else if k.0 == 0xF {
                match F32::spec_parse(s, q) {
                    Ok((a, r)) => match F32::spec_parse(s, r) {
                        Ok((b, r2)) => Ok((PrefixedValueView::F32x2(seq![a, b]), r2)),
                        Err(_) => Err(BinError::NoVariant),
                    },
                    Err(_) => Err(BinError::NoVariant),
                }
            } else {
                Err(BinError::NoVariant)
            },
        }
    }

    open spec fn spec_ser(v: PrefixedValueView) -> Seq<u8> {
        U8::spec_ser(U8(spec_prefix(v))) + ser_prefixed_body(v)
    }

    open spec fn spec_wf(v: PrefixedValueView) -> bool {
        v matches PrefixedValueView::F32x2(x) ==> x.len() == 2
    }

    fn parse(data: &[u8], p: usize) -> (r: Result<(Self, usize), BinError>) {
        let (k, q) = U8::parse(data, p)?;
        if k.0 == 0 {
            Ok((Prefixed { value: PrefixedValue::Empty }, q))
        } else if k.0 == 1 {
            match U8::parse(data, q) {
                Ok((x, r)) => Ok((Prefixed { value: PrefixedValue::U8(x) }, r)),
                Err(_) => Err(BinError::NoVariant),
            }
        } else if k.0 == 2 {
            match U16::parse(data, q) {
                Ok((x, r)) => Ok((Prefixed { value: PrefixedValue::U16(x) }, r)),
                Err(_) => Err(BinError::NoVariant),
            }
        } else if k.0 == 3 {
            match F32::parse(data, q) {
                Ok((x, r)) => Ok((Prefixed { value: PrefixedValue::F32(x) }, r)),
                Err(_) => Err(BinError::NoVariant),
            }
        } else if k.0 == 0xF {
            match F32::parse(data, q) {
                Ok((a, r)) => match F32::parse(data, r) {
                    Ok((b, r2)) => {
                        let x = [a, b];
                        assert(x@ =~= seq![a, b]);
                        Ok((Prefixed { value: PrefixedValue::F32x2(x) }, r2))
                    },
                    Err(_) => Err(BinError::NoVariant),
                },
                Err(_) => Err(BinError::NoVariant),
            }
        } else {
            Err(BinError::NoVariant)
        }
    }

    fn write(&self, out: &mut Vec<u8>) {
        U8(self.value.prefix()).write(out);
        match &self.value {
            PrefixedValue::Empty => {},
            PrefixedValue::U8(x) => x.write(out),
            PrefixedValue::U16(x) => x.write(out),
            PrefixedValue::F32(x) => x.write(out),
            PrefixedValue::F32x2(x) => {
                x[0].write(out);
                x[1].write(out);
            },
        }
        assert(final(out)@ =~= old(out)@ + Self::spec_ser(self@));
    }

    proof fn lemma_roundtrip(v: PrefixedValueView, s: Seq<u8>, p: int) {
        let h = U8::spec_ser(U8(spec_prefix(v)));
        let b = ser_prefixed_body(v);
        lemma_subrange_prefix(s, p, h, b);
        U8::lemma_roundtrip(U8(spec_prefix(v)), s, p);
        match v {
            PrefixedValueView::Empty => {},
            PrefixedValueView::U8(x) => U8::lemma_roundtrip(x, s, p + 2),
            PrefixedValueView::U16(x) => U16::lemma_roundtrip(x, s, p + 2),
            PrefixedValueView::F32(x) => F32::lemma_roundtrip(x, s, p + 2),
            PrefixedValueView::F32x2(x) => {
                lemma_subrange_prefix(s, p + 2, F32::spec_ser(x[0]), F32::spec_ser(x[1]));
                F32::lemma_roundtrip(x[0], s, p + 2);
                F32::lemma_roundtrip(x[1], s, p + 7);
                assert(seq![x[0], x[1]] =~= x);
            },
        }
    }
}

/// The body of an [`Entity`], by its tag: 9 a mob, 8 a player. A tag that
/// names neither, or a body that fails to read, gives `UnknownOrFailed`,
/// which reads nothing.
#[derive(Debug, Clone, PartialEq, Eq)]
pub enum EntityKind {
    Mob(MobEntity),
    Player(PlayerEntity),
    UnknownOrFailed,
}

/// Mathematical form of [`EntityKind`].
pub enum EntityKindView {
    Mob(MobEntityView),
    Player(PlayerEntityView),
    UnknownOrFailed,
}

impl View for EntityKind {
    type V = EntityKindView;

    open spec fn view(&self) -> EntityKindView {
        match self {
            EntityKind::Mob(m) => EntityKindView::Mob(m@),
            EntityKind::Player(x) => EntityKindView::Player(x@),
            EntityKind::UnknownOrFailed => EntityKindView::UnknownOrFailed,
        }
    }
}

/// An entity appearing near the player.
#[derive(Debug, Clone, PartialEq, Eq)]
pub struct Entity {
    pub tag: U8,
    pub kind: EntityKind,
}

/// Mathematical form of [`Entity`].
pub struct EntityView {
    pub tag: U8,
    pub kind: EntityKindView,
}

impl View for Entity {
    type V = EntityView;

    open spec fn view(&self) -> EntityView {
        EntityView { tag: self.tag, kind: self.kind@ }
    }
}

/// The bytes of an entity body.
pub open spec fn ser_entity_kind(k: EntityKindView) -> Seq<u8> {
    match k {
        EntityKindView::Mob(m) => MobEntity::spec_ser(m),
        EntityKindView::Player(x) => PlayerEntity::spec_ser(x),
        EntityKindView::UnknownOrFailed => Seq::empty(),
    }
}

impl Wire for Entity {
    open spec fn spec_parse(s: Seq<u8>, p: int) -> SpecRead<EntityView> {
        match U8::spec_parse(s, p) {
            Err(e) => Err(e),
            Ok((tag, q)) => if tag.0 == 9 {
                match MobEntity::spec_parse(s, q) {
                    Ok((m, r)) => Ok((EntityView { tag, kind: EntityKindView::Mob(m) }, r)),
                    Err(_) => Ok((EntityView { tag, kind: EntityKindView::UnknownOrFailed }, q)),
                }
            } else if tag.0 == 8 {
                match PlayerEntity::spec_parse(s, q) {
                    Ok((x, r)) => Ok((EntityView { tag, kind: EntityKindView::Player(x) }, r)),
                    Err(_) => Ok((EntityView { tag, kind: EntityKindView::UnknownOrFailed }, q)),
                }
            } else {
                Ok((EntityView { tag, kind: EntityKindView::UnknownOrFailed }, q))
            },
        }
    }

    open spec fn spec_ser(v: EntityView) -> Seq<u8> {
        U8::spec_ser(v.tag) + ser_entity_kind(v.kind)
    }

    /// A body of the kind its tag names, or no body under a tag that names
    /// none.
    open spec fn spec_wf(v: EntityView) -> bool {
        match v.kind {
            EntityKindView::Mob(m) => v.tag.0 == 9 && MobEntity::spec_wf(m),
            EntityKindView::Player(x) => v.tag.0 == 8 && PlayerEntity::spec_wf(x),
            EntityKindView::UnknownOrFailed => v.tag.0 != 9 && v.tag.0 != 8,
        }
    }

    fn parse(data: &[u8], p: usize) -> (r: Result<(Self, usize), BinError>) {
        let (tag, q) = U8::parse(data, p)?;
        if tag.0 == 9 {
            match MobEntity::parse(data, q) {
                Ok((m, r)) => Ok((Entity { tag, kind: EntityKind::Mob(m) }, r)),
                Err(_) => Ok((Entity { tag, kind: EntityKind::UnknownOrFailed }, q)),
            }
        } else if tag.0 == 8 {
            match PlayerEntity::parse(data, q) {
                Ok((x, r)) => Ok((Entity { tag, kind: EntityKind::Player(x) }, r)),
                Err(_) => Ok((Entity { tag, kind: EntityKind::UnknownOrFailed }, q)),
            }
        } else {
            Ok((Entity { tag, kind: EntityKind::UnknownOrFailed }, q))
        }
    }

    fn write(&self, out: &mut Vec<u8>) {
        self.tag.write(out);
        match &self.kind {
            EntityKind::Mob(m) => m.write(out),
            EntityKind::Player(x) => x.write(out),
            EntityKind::UnknownOrFailed => {},
        }
        assert(final(out)@ =~= old(out)@ + Self::spec_ser(self@));
    }

    proof fn lemma_roundtrip(v: EntityView, s: Seq<u8>, p: int) {
        lemma_subrange_prefix(s, p, U8::spec_ser(v.tag), ser_entity_kind(v.kind));
        U8::lemma_roundtrip(v.tag, s, p);
        match v.kind {
            EntityKindView::Mob(m) => MobEntity::lemma_roundtrip(m, s, p + 2),
            EntityKindView::Player(x) => PlayerEntity::lemma_roundtrip(x, s, p + 2),
            EntityKindView::UnknownOrFailed => {},
        }
    }
}

/// A zlib-compressed blob taking up the rest of the packet; reading
/// decompresses it.
#[derive(Debug, Clone, PartialEq, Eq)]
pub struct CompressedData {
    pub blob: Vec<u8>,
}

impl View for CompressedData {
    type V = Seq<u8>;

    open spec fn view(&self) -> Seq<u8> {
        self.blob@
    }
}

impl Wire for CompressedData {
    open spec fn spec_parse(s: Seq<u8>, p: int) -> SpecRead<Seq<u8>> {
        match zlib_inflate(s.subrange(p, s.len() as int), ZLIB_CAPACITY) {
            Some(o) => Ok((o, s.len() as int)),
            None => Err(BinError::Decompress),
        }
    }

    /// Writing stores the blob as it is, uncompressed.
    open spec fn spec_ser(v: Seq<u8>) -> Seq<u8> {
        v
    }

    /// The blob is read from the rest of the data and decompressed, so no
    /// value reads back as itself in general.
    open spec fn spec_wf(v: Seq<u8>) -> bool {
        false
    }

    fn parse(data: &[u8], p: usize) -> (r: Result<(Self, usize), BinError>) {
        let rest = slice_subrange(data, p, data.len());
        let blob = zlib_decompress(rest)?;
        Ok((CompressedData { blob }, data.len()))
    }

    fn write(&self, out: &mut Vec<u8>) {
        let mut k: usize = 0;
        let ghost mid = out@;
        while k < self.blob.len()
            invariant
                k <= self.blob@.len(),
                mid == old(out)@,
                out@ == mid + self.blob@.subrange(0, k as int),
            decreases self.blob@.len() - k,
        {
            out.push(self.blob[k]);
            k = k + 1;
            assert(out@ =~= mid + self.blob@.subrange(0, k as int));
        }
        assert(self.blob@.subrange(0, k as int) =~= self.blob@);
    }

    proof fn lemma_roundtrip(v: Seq<u8>, s: Seq<u8>, p: int) {
    }
}

/// Reads items until the data ends: a read that runs into the end stops
/// the list there, another failure fails the whole read.
pub open spec fn spec_until_eof<T: Wire>(s: Seq<u8>, p: int) -> SpecRead<Seq<T::V>>
    decreases s.len() - p,
{
    if p >= s.len() {
        Ok((Seq::empty(), p))
    } else {
        match T::spec_parse(s, p) {
            Ok((v, q)) => if p < q <= s.len() {
                match spec_until_eof::<T>(s, q) {
                    Ok((vs, r)) => Ok((seq![v] + vs, r)),
                    Err(e) => Err(e),
                }
            } else {
                Ok((seq![v], q))
            },
            Err(BinError::Eof) => Ok((Seq::empty(), p)),
            Err(e) => Err(e),
        }
    }
}

pub fn parse_until_eof<T: Wire>(data: &[u8], p: usize) -> (r: Result<(Vec<T>, usize), BinError>)
    requires
        p <= data@.len(),
    ensures
        r matches Ok((_, q)) ==> p <= q <= data@.len(),
        match r {
            Ok((v, q)) => spec_until_eof::<T>(data@, p as int) == Ok::<(Seq<T::V>, int), BinError>(
                (v@.map_values(|x: T| x@), q as int),
            ),
            Err(e) => spec_until_eof::<T>(data@, p as int) == Err::<(Seq<T::V>, int), BinError>(e),
        },
{
    let mut out: Vec<T> = Vec::new();
    let mut pos = p;
    assert(out@.map_values(|x: T| x@) =~= Seq::<T::V>::empty());
    loop
        invariant
            p <= pos <= data@.len(),
            spec_until_eof::<T>(data@, p as int) == (match spec_until_eof::<T>(data@, pos as int) {
                Ok((vs, r)) => Ok::<(Seq<T::V>, int), BinError>((out@.map_values(|x: T| x@) + vs, r)),
                Err(e) => Err::<(Seq<T::V>, int), BinError>(e),
            }),
        decreases data@.len() - pos,
    {
        let ghost before = out@.map_values(|x: T| x@);
        if pos >= data.len() {
            assert(before + Seq::<T::V>::empty() =~= before);
            return Ok((out, pos));
        }
        match T::parse(data, pos) {
            Ok((x, q)) => {
                out.push(x);
                assert(out@.map_values(|x: T| x@) =~= before.push(x@));
                if q <= pos {
                    assert(before + seq![x@] =~= before.push(x@));
                    return Ok((out, q));
                }
                proof {
                    match spec_until_eof::<T>(data@, q as int) {
                        Ok((vs, r)) => {
                            assert(before + (seq![x@] + vs) =~= before.push(x@) + vs);
                        },
                        Err(_) => {},
                    }
                }
                pos = q;
            },
            Err(BinError::Eof) => {
                assert(before + Seq::<T::V>::empty() =~= before);
                return Ok((out, pos));
            },
            Err(e) => {
                return Err(e);
            },
        }
    }
}

/// A packet after its size field: a u16 type code and the body of that type.
#[derive(Debug, Clone, PartialEq, Eq)]
pub enum Packet {
    AuthRequest(AuthRequest),
    ServerList(ServerList),
    Packet04(Packet04),
    PinResult(PinResult),
    Connect(Connect),
    TimeSync(TimeSync),
    ConnectionError(ConnectionError),
    TimeSyncResponse(TimeSyncResponse),
    CharList(CharList),
    ServerVars(ServerVars),
    Packet13(Packet13),
    Packet16(Packet16),
    PlayerData(PlayerData),
    EnterWorldRequest(EnterWorldRequest),
    Inventory(Inventory),
    EnterWorldResponse(EnterWorldResponse),
    HeartbeatClient(HeartbeatClient),
    HeartbeatServer(HeartbeatServer),
    SendChatMessage(SendChatMessage),
    ChatMessage(ChatMessage),
    UpdateBalance(UpdateBalance),
    SwitchLocation(SwitchLocation),
    ConnectionClose2,
    Entity(Entity),
    EntityMove(Vec<EntityMove>),
    EntityRemove(EntityRemove),
    EntityRemove2(EntityRemove),
    CharacterMove(CharacterMove),
    PosCamera(PosCamera),
    UseAbility(UseAbility),
    PickupRequest(PickupRequest),
    EntityAction(EntityAction),
    DealtDamage(DealtDamage),
    EntityActionPassive(EntityActionPassive),
    EntityDeath(EntityDeath),
    StatUpdate(StatUpdate),
    BattleLog(BattleLog),
    ExperienceAmount(ExperienceAmount),
    SkillCooldown(SkillCooldown),
    MoveItemRequest(MoveItem),
    MoveItemResponse(MoveItem),
    ReceiveItem(ReceiveItem),
    PacketC5(PacketC5),
    StatUpdateRequest(StatUpdateRequest),
    BuyItemRequest(BuyItemRequest),
    SellItemRequest(SellItemRequest),
    BuyBackRequest(BuyBack),
    BuyBackResponse(BuyBack),
    CompressedData(CompressedData),
    CompressedData2(CompressedData),
    ShowEmotion(ShowEmotion),
    Heartbeat2(Heartbeat2),
    Heartbeat3(Heartbeat2),
    ExitRequest(ExitRequest),
    ExitResponse(ExitResponse),
    ExitRequestIngame(ExitRequest),
    ExitResponseIngame(ExitResponse),
}

/// Mathematical form of [`Packet`].
pub enum PacketModel {
    AuthRequest(AuthRequestView),
    ServerList(ServerListView),
    Packet04(Packet04View),
    PinResult(PinResultView),
    Connect(ConnectView),
    TimeSync(TimeSyncView),
    ConnectionError(ConnectionErrorView),
    TimeSyncResponse(TimeSyncResponseView),
    CharList(CharListView),
    ServerVars(ServerVarsView),
    Packet13(Packet13View),
    Packet16(Packet16View),
    PlayerData(PlayerDataView),
    EnterWorldRequest(EnterWorldRequestView),
    Inventory(InventoryView),
    EnterWorldResponse(EnterWorldResponseView),
    HeartbeatClient(HeartbeatClientView),
    HeartbeatServer(HeartbeatServerView),
    SendChatMessage(SendChatMessageView),
    ChatMessage(ChatMessageView),
    UpdateBalance(UpdateBalanceView),
    SwitchLocation(SwitchLocationView),
    ConnectionClose2,
    Entity(EntityView),
    EntityMove(Seq<EntityMoveView>),
    EntityRemove(EntityRemoveView),
    EntityRemove2(EntityRemoveView),
    CharacterMove(CharacterMoveView),
    PosCamera(PosCameraView),
    UseAbility(UseAbilityView),
    PickupRequest(PickupRequestView),
    EntityAction(EntityActionView),
    DealtDamage(DealtDamageView),
    EntityActionPassive(EntityActionPassiveView),
    EntityDeath(EntityDeathView),
    StatUpdate(StatUpdateView),
    BattleLog(BattleLogView),
    ExperienceAmount(ExperienceAmountView),
    SkillCooldown(SkillCooldownView),
    MoveItemRequest(MoveItemView),
    MoveItemResponse(MoveItemView),
    ReceiveItem(ReceiveItemView),
    PacketC5(PacketC5View),
    StatUpdateRequest(StatUpdateRequestView),
    BuyItemRequest(BuyItemRequestView),
    SellItemRequest(SellItemRequestView),
    BuyBackRequest(BuyBackView),
    BuyBackResponse(BuyBackView),
    CompressedData(Seq<u8>),
    CompressedData2(Seq<u8>),
    ShowEmotion(ShowEmotionView),
    Heartbeat2(Heartbeat2View),
    Heartbeat3(Heartbeat2View),
    ExitRequest(ExitRequestView),
    ExitResponse(ExitResponseView),
    ExitRequestIngame(ExitRequestView),
    ExitResponseIngame(ExitResponseView),
}

impl View for Packet {
    type V = PacketModel;

    open spec fn view(&self) -> PacketModel {
        match self {
            Packet::AuthRequest(x) => PacketModel::AuthRequest(x@),
            Packet::ServerList(x) => PacketModel::ServerList(x@),
            Packet::Packet04(x) => PacketModel::Packet04(x@),
            Packet::PinResult(x) => PacketModel::PinResult(x@),
            Packet::Connect(x) => PacketModel::Connect(x@),
            Packet::TimeSync(x) => PacketModel::TimeSync(x@),
            Packet::ConnectionError(x) => PacketModel::ConnectionError(x@),
            Packet::TimeSyncResponse(x) => PacketModel::TimeSyncResponse(x@),
            Packet::CharList(x) => PacketModel::CharList(x@),
            Packet::ServerVars(x) => PacketModel::ServerVars(x@),
            Packet::Packet13(x) => PacketModel::Packet13(x@),
            Packet::Packet16(x) => PacketModel::Packet16(x@),
            Packet::PlayerData(x) => PacketModel::PlayerData(x@),
            Packet::EnterWorldRequest(x) => PacketModel::EnterWorldRequest(x@),
            Packet::Inventory(x) => PacketModel::Inventory(x@),
            Packet::EnterWorldResponse(x) => PacketModel::EnterWorldResponse(x@),
            Packet::HeartbeatClient(x) => PacketModel::HeartbeatClient(x@),
            Packet::HeartbeatServer(x) => PacketModel::HeartbeatServer(x@),
            Packet::SendChatMessage(x) => PacketModel::SendChatMessage(x@),
            Packet::ChatMessage(x) => PacketModel::ChatMessage(x@),
            Packet::UpdateBalance(x) => PacketModel::UpdateBalance(x@),
            Packet::SwitchLocation(x) => PacketModel::SwitchLocation(x@),
            Packet::ConnectionClose2 => PacketModel::ConnectionClose2,
            Packet::Entity(x) => PacketModel::Entity(x@),
            Packet::EntityMove(x) => PacketModel::EntityMove(x@.map_values(|e: EntityMove| e@)),
            Packet::EntityRemove(x) => PacketModel::EntityRemove(x@),
            Packet::EntityRemove2(x) => PacketModel::EntityRemove2(x@),
            Packet::CharacterMove(x) => PacketModel::CharacterMove(x@),
            Packet::PosCamera(x) => PacketModel::PosCamera(x@),
            Packet::UseAbility(x) => PacketModel::UseAbility(x@),
            Packet::PickupRequest(x) => PacketModel::PickupRequest(x@),
            Packet::EntityAction(x) => PacketModel::EntityAction(x@),
            Packet::DealtDamage(x) => PacketModel::DealtDamage(x@),
            Packet::EntityActionPassive(x) => PacketModel::EntityActionPassive(x@),
            Packet::EntityDeath(x) => PacketModel::EntityDeath(x@),
            Packet::StatUpdate(x) => PacketModel::StatUpdate(x@),
            Packet::BattleLog(x) => PacketModel::BattleLog(x@),
            Packet::ExperienceAmount(x) => PacketModel::ExperienceAmount(x@),
            Packet::SkillCooldown(x) => PacketModel::SkillCooldown(x@),
            Packet::MoveItemRequest(x) => PacketModel::MoveItemRequest(x@),
            Packet::MoveItemResponse(x) => PacketModel::MoveItemResponse(x@),
            Packet::ReceiveItem(x) => PacketModel::ReceiveItem(x@),
            Packet::PacketC5(x) => PacketModel::PacketC5(x@),
            Packet::StatUpdateRequest(x) => PacketModel::StatUpdateRequest(x@),
            Packet::BuyItemRequest(x) => PacketModel::BuyItemRequest(x@),
            Packet::SellItemRequest(x) => PacketModel::SellItemRequest(x@),
            Packet::BuyBackRequest(x) => PacketModel::BuyBackRequest(x@),
            Packet::BuyBackResponse(x) => PacketModel::BuyBackResponse(x@),
            Packet::CompressedData(x) => PacketModel::CompressedData(x@),
            Packet::CompressedData2(x) => PacketModel::CompressedData2(x@),
            Packet::ShowEmotion(x) => PacketModel::ShowEmotion(x@),
            Packet::Heartbeat2(x) => PacketModel::Heartbeat2(x@),
            Packet::Heartbeat3(x) => PacketModel::Heartbeat3(x@),
            Packet::ExitRequest(x) => PacketModel::ExitRequest(x@),
            Packet::ExitResponse(x) => PacketModel::ExitResponse(x@),
            Packet::ExitRequestIngame(x) => PacketModel::ExitRequestIngame(x@),
            Packet::ExitResponseIngame(x) => PacketModel::ExitResponseIngame(x@),
        }
    }
}

/// The type code of a packet.
pub open spec fn spec_packet_code(v: PacketModel) -> u16 {
    match v {
        PacketModel::AuthRequest(_) => 0x1,
        PacketModel::ServerList(_) => 0x2,
        PacketModel::Packet04(_) => 0x4,
        PacketModel::PinResult(_) => 0x6,
        PacketModel::Connect(_) => 0xc,
        PacketModel::TimeSync(_) => 0xd,
        PacketModel::ConnectionError(_) => 0xe,
        PacketModel::TimeSyncResponse(_) => 0xf,
        PacketModel::CharList(_) => 0x11,
        PacketModel::ServerVars(_) => 0x12,
        PacketModel::Packet13(_) => 0x13,
        PacketModel::Packet16(_) => 0x16,
        PacketModel::PlayerData(_) => 0x33,
        PacketModel::EnterWorldRequest(_) => 0x34,
        PacketModel::Inventory(_) => 0x38,
        PacketModel::EnterWorldResponse(_) => 0x39,
        PacketModel::HeartbeatClient(_) => 0x46,
        PacketModel::HeartbeatServer(_) => 0x47,
        PacketModel::SendChatMessage(_) => 0x4d,
        PacketModel::ChatMessage(_) => 0x4e,
        PacketModel::UpdateBalance(_) => 0x52,
        PacketModel::SwitchLocation(_) => 0x53,
        PacketModel::ConnectionClose2 => 0x56,
        PacketModel::Entity(_) => 0x5a,
        PacketModel::EntityMove(_) => 0x5c,
        PacketModel::EntityRemove(_) => 0x5e,
        PacketModel::EntityRemove2(_) => 0x5b,
        PacketModel::CharacterMove(_) => 0x5f,
        PacketModel::PosCamera(_) => 0x64,
        PacketModel::UseAbility(_) => 0x92,
        PacketModel::PickupRequest(_) => 0x95,
        PacketModel::EntityAction(_) => 0x9a,
        PacketModel::DealtDamage(_) => 0x9c,
        PacketModel::EntityActionPassive(_) => 0xa0,
        PacketModel::EntityDeath(_) => 0xa4,
        PacketModel::StatUpdate(_) => 0xa7,
        PacketModel::BattleLog(_) => 0xae,
        PacketModel::ExperienceAmount(_) => 0xaf,
        PacketModel::SkillCooldown(_) => 0xb4,
        PacketModel::MoveItemRequest(_) => 0xbb,
        PacketModel::MoveItemResponse(_) => 0xbe,
        PacketModel::ReceiveItem(_) => 0xc1,
        PacketModel::PacketC5(_) => 0xc5,
        PacketModel::StatUpdateRequest(_) => 0xcd,
        PacketModel::BuyItemRequest(_) => 0x103,
        PacketModel::SellItemRequest(_) => 0x105,
        PacketModel::BuyBackRequest(_) => 0x106,
        PacketModel::BuyBackResponse(_) => 0x107,
        PacketModel::CompressedData(_) => 0x129,
        PacketModel::CompressedData2(_) => 0x12a,
        PacketModel::ShowEmotion(_) => 0x196,
        PacketModel::Heartbeat2(_) => 0x199,
        PacketModel::Heartbeat3(_) => 0x19c,
        PacketModel::ExitRequest(_) => 0x1d4,
        PacketModel::ExitResponse(_) => 0x1d5,
        PacketModel::ExitRequestIngame(_) => 0x1d7,
        PacketModel::ExitResponseIngame(_) => 0x1d8,
    }
}

/// The bytes of a packet body.
pub open spec fn ser_packet_body(v: PacketModel) -> Seq<u8> {
    match v {
        PacketModel::AuthRequest(x) => AuthRequest::spec_ser(x),
        PacketModel::ServerList(x) => ServerList::spec_ser(x),
        PacketModel::Packet04(x) => Packet04::spec_ser(x),
        PacketModel::PinResult(x) => PinResult::spec_ser(x),
        PacketModel::Connect(x) => Connect::spec_ser(x),
        PacketModel::TimeSync(x) => TimeSync::spec_ser(x),
        PacketModel::ConnectionError(x) => ConnectionError::spec_ser(x),
        PacketModel::TimeSyncResponse(x) => TimeSyncResponse::spec_ser(x),
        PacketModel::CharList(x) => CharList::spec_ser(x),
        PacketModel::ServerVars(x) => ServerVars::spec_ser(x),
        PacketModel::Packet13(x) => Packet13::spec_ser(x),
        PacketModel::Packet16(x) => Packet16::spec_ser(x),
        PacketModel::PlayerData(x) => PlayerData::spec_ser(x),
        PacketModel::EnterWorldRequest(x) => EnterWorldRequest::spec_ser(x),
        PacketModel::Inventory(x) => Inventory::spec_ser(x),
        PacketModel::EnterWorldResponse(x) => EnterWorldResponse::spec_ser(x),
        PacketModel::HeartbeatClient(x) => HeartbeatClient::spec_ser(x),
        PacketModel::HeartbeatServer(x) => HeartbeatServer::spec_ser(x),
        PacketModel::SendChatMessage(x) => SendChatMessage::spec_ser(x),
        PacketModel::ChatMessage(x) => ChatMessage::spec_ser(x),
        PacketModel::UpdateBalance(x) => UpdateBalance::spec_ser(x),
        PacketModel::SwitchLocation(x) => SwitchLocation::spec_ser(x),
        PacketModel::ConnectionClose2 => Seq::empty(),
        PacketModel::Entity(x) => Entity::spec_ser(x),
        PacketModel::EntityMove(x) => ser_items::<EntityMove>(x),
        PacketModel::EntityRemove(x) => EntityRemove::spec_ser(x),
        PacketModel::EntityRemove2(x) => EntityRemove::spec_ser(x),
        PacketModel::CharacterMove(x) => CharacterMove::spec_ser(x),
        PacketModel::PosCamera(x) => PosCamera::spec_ser(x),
        PacketModel::UseAbility(x) => UseAbility::spec_ser(x),
        PacketModel::PickupRequest(x) => PickupRequest::spec_ser(x),
        PacketModel::EntityAction(x) => EntityAction::spec_ser(x),
        PacketModel::DealtDamage(x) => DealtDamage::spec_ser(x),
        PacketModel::EntityActionPassive(x) => EntityActionPassive::spec_ser(x),
        PacketModel::EntityDeath(x) => EntityDeath::spec_ser(x),
        PacketModel::StatUpdate(x) => StatUpdate::spec_ser(x),
        PacketModel::BattleLog(x) => BattleLog::spec_ser(x),
        PacketModel::ExperienceAmount(x) => ExperienceAmount::spec_ser(x),
        PacketModel::SkillCooldown(x) => SkillCooldown::spec_ser(x),
        PacketModel::MoveItemRequest(x) => MoveItem::spec_ser(x),
        PacketModel::MoveItemResponse(x) => MoveItem::spec_ser(x),
        PacketModel::ReceiveItem(x) => ReceiveItem::spec_ser(x),
        PacketModel::PacketC5(x) => PacketC5::spec_ser(x),
        PacketModel::StatUpdateRequest(x) => StatUpdateRequest::spec_ser(x),
        PacketModel::BuyItemRequest(x) => BuyItemRequest::spec_ser(x),
        PacketModel::SellItemRequest(x) => SellItemRequest::spec_ser(x),
        PacketModel::BuyBackRequest(x) => BuyBack::spec_ser(x),
        PacketModel::BuyBackResponse(x) => BuyBack::spec_ser(x),
        PacketModel::CompressedData(x) => CompressedData::spec_ser(x),
        PacketModel::CompressedData2(x) => CompressedData::spec_ser(x),
        PacketModel::ShowEmotion(x) => ShowEmotion::spec_ser(x),
        PacketModel::Heartbeat2(x) => Heartbeat2::spec_ser(x),
        PacketModel::Heartbeat3(x) => Heartbeat2::spec_ser(x),
        PacketModel::ExitRequest(x) => ExitRequest::spec_ser(x),
        PacketModel::ExitResponse(x) => ExitResponse::spec_ser(x),
        PacketModel::ExitRequestIngame(x) => ExitRequest::spec_ser(x),
        PacketModel::ExitResponseIngame(x) => ExitResponse::spec_ser(x),
    }
}

impl Packet {
    /// The type code of this packet.
    pub fn code(&self) -> (r: u16)
        ensures
            r == spec_packet_code(self@),
    {
        match self {
            Packet::AuthRequest(_) => 0x1,
            Packet::ServerList(_) => 0x2,
            Packet::Packet04(_) => 0x4,
            Packet::PinResult(_) => 0x6,
            Packet::Connect(_) => 0xc,
            Packet::TimeSync(_) => 0xd,
            Packet::ConnectionError(_) => 0xe,
            Packet::TimeSyncResponse(_) => 0xf,
            Packet::CharList(_) => 0x11,
            Packet::ServerVars(_) => 0x12,
            Packet::Packet13(_) => 0x13,
            Packet::Packet16(_) => 0x16,
            Packet::PlayerData(_) => 0x33,
            Packet::EnterWorldRequest(_) => 0x34,
            Packet::Inventory(_) => 0x38,
            Packet::EnterWorldResponse(_) => 0x39,
            Packet::HeartbeatClient(_) => 0x46,
            Packet::HeartbeatServer(_) => 0x47,
            Packet::SendChatMessage(_) => 0x4d,
            Packet::ChatMessage(_) => 0x4e,
            Packet::UpdateBalance(_) => 0x52,
            Packet::SwitchLocation(_) => 0x53,
            Packet::ConnectionClose2 => 0x56,
            Packet::Entity(_) => 0x5a,
            Packet::EntityMove(_) => 0x5c,
            Packet::EntityRemove(_) => 0x5e,
            Packet::EntityRemove2(_) => 0x5b,
            Packet::CharacterMove(_) => 0x5f,
            Packet::PosCamera(_) => 0x64,
            Packet::UseAbility(_) => 0x92,
            Packet::PickupRequest(_) => 0x95,
            Packet::EntityAction(_) => 0x9a,
            Packet::DealtDamage(_) => 0x9c,
            Packet::EntityActionPassive(_) => 0xa0,
            Packet::EntityDeath(_) => 0xa4,
            Packet::StatUpdate(_) => 0xa7,
            Packet::BattleLog(_) => 0xae,
            Packet::ExperienceAmount(_) => 0xaf,
            Packet::SkillCooldown(_) => 0xb4,
            Packet::MoveItemRequest(_) => 0xbb,
            Packet::MoveItemResponse(_) => 0xbe,
            Packet::ReceiveItem(_) => 0xc1,
            Packet::PacketC5(_) => 0xc5,
            Packet::StatUpdateRequest(_) => 0xcd,
            Packet::BuyItemRequest(_) => 0x103,
            Packet::SellItemRequest(_) => 0x105,
            Packet::BuyBackRequest(_) => 0x106,
            Packet::BuyBackResponse(_) => 0x107,
            Packet::CompressedData(_) => 0x129,
            Packet::CompressedData2(_) => 0x12a,
            Packet::ShowEmotion(_) => 0x196,
            Packet::Heartbeat2(_) => 0x199,
            Packet::Heartbeat3(_) => 0x19c,
            Packet::ExitRequest(_) => 0x1d4,
            Packet::ExitResponse(_) => 0x1d5,
            Packet::ExitRequestIngame(_) => 0x1d7,
            Packet::ExitResponseIngame(_) => 0x1d8,
        }
    }
}

impl Wire for Packet {
    /// An unknown code, or a body that fails to read, gives `NoVariant`.
    open spec fn spec_parse(s: Seq<u8>, p: int) -> SpecRead<PacketModel> {
        if p + 2 > s.len() {
            Err(BinError::NoVariant)
        } else {
            let code = le16(s, p);
            let q = p + 2;
            if code == 0x1 {
                match AuthRequest::spec_parse(s, q) {
                    Ok((x, r)) => Ok((PacketModel::AuthRequest(x), r)),
                    Err(_) => Err(BinError::NoVariant),
                }
            } else if code == 0x2 {
                match ServerList::spec_parse(s, q) {
                    Ok((x, r)) => Ok((PacketModel::ServerList(x), r)),
                    Err(_) => Err(BinError::NoVariant),
                }
            } else if code == 0x4 {
                match Packet04::spec_parse(s, q) {
                    Ok((x, r)) => Ok((PacketModel::Packet04(x), r)),
                    Err(_) => Err(BinError::NoVariant),
                }
            } else if code == 0x6 {
                match PinResult::spec_parse(s, q) {
                    Ok((x, r)) => Ok((PacketModel::PinResult(x), r)),
                    Err(_) => Err(BinError::NoVariant),
                }
            } else if code == 0xc {
                match Connect::spec_parse(s, q) {
                    Ok((x, r)) => Ok((PacketModel::Connect(x), r)),
                    Err(_) => Err(BinError::NoVariant),
                }
            } else if code == 0xd {
                match TimeSync::spec_parse(s, q) {
                    Ok((x, r)) => Ok((PacketModel::TimeSync(x), r)),
                    Err(_) => Err(BinError::NoVariant),
                }
            } else if code == 0xe {
                match ConnectionError::spec_parse(s, q) {
                    Ok((x, r)) => Ok((PacketModel::ConnectionError(x), r)),
                    Err(_) => Err(BinError::NoVariant),
                }
            } else if code == 0xf {
                match TimeSyncResponse::spec_parse(s, q) {
                    Ok((x, r)) => Ok((PacketModel::TimeSyncResponse(x), r)),
                    Err(_) => Err(BinError::NoVariant),
                }
            } else if code == 0x11 {
                match CharList::spec_parse(s, q) {
                    Ok((x, r)) => Ok((PacketModel::CharList(x), r)),
                    Err(_) => Err(BinError::NoVariant),
                }
            } else if code == 0x12 {
                match ServerVars::spec_parse(s, q) {
                    Ok((x, r)) => Ok((PacketModel::ServerVars(x), r)),
                    Err(_) => Err(BinError::NoVariant),
                }
            } else if code == 0x13 {
                match Packet13::spec_parse(s, q) {
                    Ok((x, r)) => Ok((PacketModel::Packet13(x), r)),
                    Err(_) => Err(BinError::NoVariant),
                }
            } else if code == 0x16 {
                match Packet16::spec_parse(s, q) {
                    Ok((x, r)) => Ok((PacketModel::Packet16(x), r)),
                    Err(_) => Err(BinError::NoVariant),
                }
            } else if code == 0x33 {
                match PlayerData::spec_parse(s, q) {
                    Ok((x, r)) => Ok((PacketModel::PlayerData(x), r)),
                    Err(_) => Err(BinError::NoVariant),
                }
            } else if code == 0x34 {
                match EnterWorldRequest::spec_parse(s, q) {
                    Ok((x, r)) => Ok((PacketModel::EnterWorldRequest(x), r)),
                    Err(_) => Err(BinError::NoVariant),
                }
            } else if code == 0x38 {
                match Inventory::spec_parse(s, q) {
                    Ok((x, r)) => Ok((PacketModel::Inventory(x), r)),
                    Err(_) => Err(BinError::NoVariant),
                }
            } else if code == 0x39 {
                match EnterWorldResponse::spec_parse(s, q) {
                    Ok((x, r)) => Ok((PacketModel::EnterWorldResponse(x), r)),
                    Err(_) => Err(BinError::NoVariant),
                }
            } else if code == 0x46 {
                match HeartbeatClient::spec_parse(s, q) {
                    Ok((x, r)) => Ok((PacketModel::HeartbeatClient(x), r)),
                    Err(_) => Err(BinError::NoVariant),
                }
            } else if code == 0x47 {
                match HeartbeatServer::spec_parse(s, q) {
                    Ok((x, r)) => Ok((PacketModel::HeartbeatServer(x), r)),
                    Err(_) => Err(BinError::NoVariant),
                }
            } else if code == 0x4d {
                match SendChatMessage::spec_parse(s, q) {
                    Ok((x, r)) => Ok((PacketModel::SendChatMessage(x), r)),
                    Err(_) => Err(BinError::NoVariant),
                }
            } else if code == 0x4e {
                match ChatMessage::spec_parse(s, q) {
                    Ok((x, r)) => Ok((PacketModel::ChatMessage(x), r)),
                    Err(_) => Err(BinError::NoVariant),
                }
            } else if code == 0x52 {
                match UpdateBalance::spec_parse(s, q) {
                    Ok((x, r)) => Ok((PacketModel::UpdateBalance(x), r)),
                    Err(_) => Err(BinError::NoVariant),
                }
            } else if code == 0x53 {
                match SwitchLocation::spec_parse(s, q) {
                    Ok((x, r)) => Ok((PacketModel::SwitchLocation(x), r)),
                    Err(_) => Err(BinError::NoVariant),
                }
            } else if code == 0x56 {
                Ok((PacketModel::ConnectionClose2, q))
            } else if code == 0x5a {
                match Entity::spec_parse(s, q) {
                    Ok((x, r)) => Ok((PacketModel::Entity(x), r)),
                    Err(_) => Err(BinError::NoVariant),
                }
            } else if code == 0x5c {
                match spec_until_eof::<EntityMove>(s, q) {
                    Ok((x, r)) => Ok((PacketModel::EntityMove(x), r)),
                    Err(_) => Err(BinError::NoVariant),
                }
            } else if code == 0x5e {
                match EntityRemove::spec_parse(s, q) {
                    Ok((x, r)) => Ok((PacketModel::EntityRemove(x), r)),
                    Err(_) => Err(BinError::NoVariant),
                }
            } else if code == 0x5b {
                match EntityRemove::spec_parse(s, q) {
                    Ok((x, r)) => Ok((PacketModel::EntityRemove2(x), r)),
                    Err(_) => Err(BinError::NoVariant),
                }
            } else if code == 0x5f {
                match CharacterMove::spec_parse(s, q) {
                    Ok((x, r)) => Ok((PacketModel::CharacterMove(x), r)),
                    Err(_) => Err(BinError::NoVariant),
                }
            } else if code == 0x64 {
                match PosCamera::spec_parse(s, q) {
                    Ok((x, r)) => Ok((PacketModel::PosCamera(x), r)),
                    Err(_) => Err(BinError::NoVariant),
                }
            } else if code == 0x92 {
                match UseAbility::spec_parse(s, q) {
                    Ok((x, r)) => Ok((PacketModel::UseAbility(x), r)),
                    Err(_) => Err(BinError::NoVariant),
                }
            } else if code == 0x95 {
                match PickupRequest::spec_parse(s, q) {
                    Ok((x, r)) => Ok((PacketModel::PickupRequest(x), r)),
                    Err(_) => Err(BinError::NoVariant),
                }
            } else if code == 0x9a {
                match EntityAction::spec_parse(s, q) {
                    Ok((x, r)) => Ok((PacketModel::EntityAction(x), r)),
                    Err(_) => Err(BinError::NoVariant),
                }
            } else if code == 0x9c {
                match DealtDamage::spec_parse(s, q) {
                    Ok((x, r)) => Ok((PacketModel::DealtDamage(x), r)),
                    Err(_) => Err(BinError::NoVariant),
                }
            } else if code == 0xa0 {
                match EntityActionPassive::spec_parse(s, q) {
                    Ok((x, r)) => Ok((PacketModel::EntityActionPassive(x), r)),
                    Err(_) => Err(BinError::NoVariant),
                }
            } else if code == 0xa4 {
                match EntityDeath::spec_parse(s, q) {
                    Ok((x, r)) => Ok((PacketModel::EntityDeath(x), r)),
                    Err(_) => Err(BinError::NoVariant),
                }
            } else if code == 0xa7 {
                match StatUpdate::spec_parse(s, q) {
                    Ok((x, r)) => Ok((PacketModel::StatUpdate(x), r)),
                    Err(_) => Err(BinError::NoVariant),
                }
            } else if code == 0xae {
                match BattleLog::spec_parse(s, q) {
                    Ok((x, r)) => Ok((PacketModel::BattleLog(x), r)),
                    Err(_) => Err(BinError::NoVariant),
                }
            } else if code == 0xaf {
                match ExperienceAmount::spec_parse(s, q) {
                    Ok((x, r)) => Ok((PacketModel::ExperienceAmount(x), r)),
                    Err(_) => Err(BinError::NoVariant),
                }
            } else if code == 0xb4 {
                match SkillCooldown::spec_parse(s, q) {
                    Ok((x, r)) => Ok((PacketModel::SkillCooldown(x), r)),
                    Err(_) => Err(BinError::NoVariant),
                }
            } else if code == 0xbb {
                match MoveItem::spec_parse(s, q) {
                    Ok((x, r)) => Ok((PacketModel::MoveItemRequest(x), r)),
                    Err(_) => Err(BinError::NoVariant),
                }
            } else if code == 0xbe {
                match MoveItem::spec_parse(s, q) {
                    Ok((x, r)) => Ok((PacketModel::MoveItemResponse(x), r)),
                    Err(_) => Err(BinError::NoVariant),
                }
            } else if code == 0xc1 {
                match ReceiveItem::spec_parse(s, q) {
                    Ok((x, r)) => Ok((PacketModel::ReceiveItem(x), r)),
                    Err(_) => Err(BinError::NoVariant),
                }
            } else if code == 0xc5 {
                match PacketC5::spec_parse(s, q) {
                    Ok((x, r)) => Ok((PacketModel::PacketC5(x), r)),
                    Err(_) => Err(BinError::NoVariant),
                }
            } else if code == 0xcd {
                match StatUpdateRequest::spec_parse(s, q) {
                    Ok((x, r)) => Ok((PacketModel::StatUpdateRequest(x), r)),
                    Err(_) => Err(BinError::NoVariant),
                }
            } else if code == 0x103 {
                match BuyItemRequest::spec_parse(s, q) {
                    Ok((x, r)) => Ok((PacketModel::BuyItemRequest(x), r)),
                    Err(_) => Err(BinError::NoVariant),
                }
            } else if code == 0x105 {
                match SellItemRequest::spec_parse(s, q) {
                    Ok((x, r)) => Ok((PacketModel::SellItemRequest(x), r)),
                    Err(_) => Err(BinError::NoVariant),
                }
            } else if code == 0x106 {
                match BuyBack::spec_parse(s, q) {
                    Ok((x, r)) => Ok((PacketModel::BuyBackRequest(x), r)),
                    Err(_) => Err(BinError::NoVariant),
                }
            } else if code == 0x107 {
                match BuyBack::spec_parse(s, q) {
                    Ok((x, r)) => Ok((PacketModel::BuyBackResponse(x), r)),
                    Err(_) => Err(BinError::NoVariant),
                }
            } else if code == 0x129 {
                match CompressedData::spec_parse(s, q) {
                    Ok((x, r)) => Ok((PacketModel::CompressedData(x), r)),
                    Err(_) => Err(BinError::NoVariant),
                }
            } else if code == 0x12a {
                match CompressedData::spec_parse(s, q) {
                    Ok((x, r)) => Ok((PacketModel::CompressedData2(x), r)),
                    Err(_) => Err(BinError::NoVariant),
                }
            } else if code == 0x196 {
                match ShowEmotion::spec_parse(s, q) {
                    Ok((x, r)) => Ok((PacketModel::ShowEmotion(x), r)),
                    Err(_) => Err(BinError::NoVariant),
                }
            } else if code == 0x199 {
                match Heartbeat2::spec_parse(s, q) {
                    Ok((x, r)) => Ok((PacketModel::Heartbeat2(x), r)),
                    Err(_) => Err(BinError::NoVariant),
                }
            } else if code == 0x19c {
                match Heartbeat2::spec_parse(s, q) {
                    Ok((x, r)) => Ok((PacketModel::Heartbeat3(x), r)),
                    Err(_) => Err(BinError::NoVariant),
                }
            } else if code == 0x1d4 {
                match ExitRequest::spec_parse(s, q) {
                    Ok((x, r)) => Ok((PacketModel::ExitRequest(x), r)),
                    Err(_) => Err(BinError::NoVariant),
                }
            } else if code == 0x1d5 {
                match ExitResponse::spec_parse(s, q) {
                    Ok((x, r)) => Ok((PacketModel::ExitResponse(x), r)),
                    Err(_) => Err(BinError::NoVariant),
                }
            } else if code == 0x1d7 {
                match ExitRequest::spec_parse(s, q) {
                    Ok((x, r)) => Ok((PacketModel::ExitRequestIngame(x), r)),
                    Err(_) => Err(BinError::NoVariant),
                }
            } else if code == 0x1d8 {
                match ExitResponse::spec_parse(s, q) {
                    Ok((x, r)) => Ok((PacketModel::ExitResponseIngame(x), r)),
                    Err(_) => Err(BinError::NoVariant),
                }
            } else {
                Err(BinError::NoVariant)
            }
        }
    }

    open spec fn spec_ser(v: PacketModel) -> Seq<u8> {
        ser16(spec_packet_code(v)) + ser_packet_body(v)
    }

    /// Movement lists and compressed blobs take the rest of the data, so
    /// they read back as themselves only at its end; they are left out.
    open spec fn spec_wf(v: PacketModel) -> bool {
        match v {
            PacketModel::AuthRequest(x) => AuthRequest::spec_wf(x),
            PacketModel::ServerList(x) => ServerList::spec_wf(x),
            PacketModel::Packet04(x) => Packet04::spec_wf(x),
            PacketModel::PinResult(x) => PinResult::spec_wf(x),
            PacketModel::Connect(x) => Connect::spec_wf(x),
            PacketModel::TimeSync(x) => TimeSync::spec_wf(x),
            PacketModel::ConnectionError(x) => ConnectionError::spec_wf(x),
            PacketModel::TimeSyncResponse(x) => TimeSyncResponse::spec_wf(x),
            PacketModel::CharList(x) => CharList::spec_wf(x),
            PacketModel::ServerVars(x) => ServerVars::spec_wf(x),
            PacketModel::Packet13(x) => Packet13::spec_wf(x),
            PacketModel::Packet16(x) => Packet16::spec_wf(x),
            PacketModel::PlayerData(x) => PlayerData::spec_wf(x),
            PacketModel::EnterWorldRequest(x) => EnterWorldRequest::spec_wf(x),
            PacketModel::Inventory(x) => Inventory::spec_wf(x),
            PacketModel::EnterWorldResponse(x) => EnterWorldResponse::spec_wf(x),
            PacketModel::HeartbeatClient(x) => HeartbeatClient::spec_wf(x),
            PacketModel::HeartbeatServer(x) => HeartbeatServer::spec_wf(x),
            PacketModel::SendChatMessage(x) => SendChatMessage::spec_wf(x),
            PacketModel::ChatMessage(x) => ChatMessage::spec_wf(x),
            PacketModel::UpdateBalance(x) => UpdateBalance::spec_wf(x),
            PacketModel::SwitchLocation(x) => SwitchLocation::spec_wf(x),
            PacketModel::ConnectionClose2 => true,
            PacketModel::Entity(x) => Entity::spec_wf(x),
            PacketModel::EntityMove(_) => false,
            PacketModel::EntityRemove(x) => EntityRemove::spec_wf(x),
            PacketModel::EntityRemove2(x) => EntityRemove::spec_wf(x),
            PacketModel::CharacterMove(x) => CharacterMove::spec_wf(x),
            PacketModel::PosCamera(x) => PosCamera::spec_wf(x),
            PacketModel::UseAbility(x) => UseAbility::spec_wf(x),
            PacketModel::PickupRequest(x) => PickupRequest::spec_wf(x),
            PacketModel::EntityAction(x) => EntityAction::spec_wf(x),
            PacketModel::DealtDamage(x) => DealtDamage::spec_wf(x),
            PacketModel::EntityActionPassive(x) => EntityActionPassive::spec_wf(x),
            PacketModel::EntityDeath(x) => EntityDeath::spec_wf(x),
            PacketModel::StatUpdate(x) => StatUpdate::spec_wf(x),
            PacketModel::BattleLog(x) => BattleLog::spec_wf(x),
            PacketModel::ExperienceAmount(x) => ExperienceAmount::spec_wf(x),
            PacketModel::SkillCooldown(x) => SkillCooldown::spec_wf(x),
            PacketModel::MoveItemRequest(x) => MoveItem::spec_wf(x),
            PacketModel::MoveItemResponse(x) => MoveItem::spec_wf(x),
            PacketModel::ReceiveItem(x) => ReceiveItem::spec_wf(x),
            PacketModel::PacketC5(x) => PacketC5::spec_wf(x),
            PacketModel::StatUpdateRequest(x) => StatUpdateRequest::spec_wf(x),
            PacketModel::BuyItemRequest(x) => BuyItemRequest::spec_wf(x),
            PacketModel::SellItemRequest(x) => SellItemRequest::spec_wf(x),
            PacketModel::BuyBackRequest(x) => BuyBack::spec_wf(x),
            PacketModel::BuyBackResponse(x) => BuyBack::spec_wf(x),
            PacketModel::CompressedData(_) => false,
            PacketModel::CompressedData2(_) => false,
            PacketModel::ShowEmotion(x) => ShowEmotion::spec_wf(x),
            PacketModel::Heartbeat2(x) => Heartbeat2::spec_wf(x),
            PacketModel::Heartbeat3(x) => Heartbeat2::spec_wf(x),
            PacketModel::ExitRequest(x) => ExitRequest::spec_wf(x),
            PacketModel::ExitResponse(x) => ExitResponse::spec_wf(x),
            PacketModel::ExitRequestIngame(x) => ExitRequest::spec_wf(x),
            PacketModel::ExitResponseIngame(x) => ExitResponse::spec_wf(x),
        }
    }

    #[verifier::spinoff_prover]
    #[verifier::rlimit(100)]
    fn parse(data: &[u8], p: usize) -> (r: Result<(Self, usize), BinError>) {
        if data.len() - p < 2 {
            return Err(BinError::NoVariant);
        }
        let code = read_le16(data, p);
        let q = p + 2;
        if code == 0x1 {
            match AuthRequest::parse(data, q) {
                Ok((x, r)) => {
                    Ok((Packet::AuthRequest(x), r))
                },
                Err(_) => Err(BinError::NoVariant),
            }
        } else if code == 0x2 {
            match ServerList::parse(data, q) {
                Ok((x, r)) => {
                    Ok((Packet::ServerList(x), r))
                },
                Err(_) => Err(BinError::NoVariant),
            }
        } else if code == 0x4 {
            match Packet04::parse(data, q) {
                Ok((x, r)) => {
                    Ok((Packet::Packet04(x), r))
                },
                Err(_) => Err(BinError::NoVariant),
            }
        } else if code == 0x6 {
            match PinResult::parse(data, q) {
                Ok((x, r)) => {
                    Ok((Packet::PinResult(x), r))
                },
                Err(_) => Err(BinError::NoVariant),
            }
        } else if code == 0xc {
            match Connect::parse(data, q) {
                Ok((x, r)) => {
                    Ok((Packet::Connect(x), r))
                },
                Err(_) => Err(BinError::NoVariant),
            }
        } else if code == 0xd {
            match TimeSync::parse(data, q) {
                Ok((x, r)) => {
                    Ok((Packet::TimeSync(x), r))
                },
                Err(_) => Err(BinError::NoVariant),
            }
        } else if code == 0xe {
            match ConnectionError::parse(data, q) {
                Ok((x, r)) => {
                    Ok((Packet::ConnectionError(x), r))
                },
                Err(_) => Err(BinError::NoVariant),
            }
        } else if code == 0xf {
            match TimeSyncResponse::parse(data, q) {
                Ok((x, r)) => {
                    Ok((Packet::TimeSyncResponse(x), r))
                },
                Err(_) => Err(BinError::NoVariant),
            }
        } else if code == 0x11 {
            match CharList::parse(data, q) {
                Ok((x, r)) => {
                    Ok((Packet::CharList(x), r))
                },
                Err(_) => Err(BinError::NoVariant),
            }
        } else if code == 0x12 {
            match ServerVars::parse(data, q) {
                Ok((x, r)) => {
                    Ok((Packet::ServerVars(x), r))
                },
                Err(_) => Err(BinError::NoVariant),
            }
        } else if code == 0x13 {
            match Packet13::parse(data, q) {
                Ok((x, r)) => {
                    Ok((Packet::Packet13(x), r))
                },
                Err(_) => Err(BinError::NoVariant),
            }
        } else if code == 0x16 {
            match Packet16::parse(data, q) {
                Ok((x, r)) => {
                    Ok((Packet::Packet16(x), r))
                },
                Err(_) => Err(BinError::NoVariant),
            }
        } else if code == 0x33 {
            match PlayerData::parse(data, q) {
                Ok((x, r)) => {
                    Ok((Packet::PlayerData(x), r))
                },
                Err(_) => Err(BinError::NoVariant),
            }
        } else if code == 0x34 {
            match EnterWorldRequest::parse(data, q) {
                Ok((x, r)) => {
                    Ok((Packet::EnterWorldRequest(x), r))
                },
                Err(_) => Err(BinError::NoVariant),
            }
        } else if code == 0x38 {
            match Inventory::parse(data, q) {
                Ok((x, r)) => {
                    Ok((Packet::Inventory(x), r))
                },
                Err(_) => Err(BinError::NoVariant),
            }
        } else if code == 0x39 {
            match EnterWorldResponse::parse(data, q) {
                Ok((x, r)) => {
                    Ok((Packet::EnterWorldResponse(x), r))
                },
                Err(_) => Err(BinError::NoVariant),
            }
        } else if code == 0x46 {
            match HeartbeatClient::parse(data, q) {
                Ok((x, r)) => {
                    Ok((Packet::HeartbeatClient(x), r))
                },
                Err(_) => Err(BinError::NoVariant),
            }
        } else if code == 0x47 {
            match HeartbeatServer::parse(data, q) {
                Ok((x, r)) => {
                    Ok((Packet::HeartbeatServer(x), r))
                },
                Err(_) => Err(BinError::NoVariant),
            }
        } else if code == 0x4d {
            match SendChatMessage::parse(data, q) {
                Ok((x, r)) => {
                    Ok((Packet::SendChatMessage(x), r))
                },
                Err(_) => Err(BinError::NoVariant),
            }
        } else if code == 0x4e {
            match ChatMessage::parse(data, q) {
                Ok((x, r)) => {
                    Ok((Packet::ChatMessage(x), r))
                },
                Err(_) => Err(BinError::NoVariant),
            }
        } else if code == 0x52 {
            match UpdateBalance::parse(data, q) {
                Ok((x, r)) => {
                    Ok((Packet::UpdateBalance(x), r))
                },
                Err(_) => Err(BinError::NoVariant),
            }
        } else if code == 0x53 {
            match SwitchLocation::parse(data, q) {
                Ok((x, r)) => {
                    Ok((Packet::SwitchLocation(x), r))
                },
                Err(_) => Err(BinError::NoVariant),
            }
        } else if code == 0x56 {
            Ok((Packet::ConnectionClose2, q))
        } else if code == 0x5a {
            match Entity::parse(data, q) {
                Ok((x, r)) => {
                    Ok((Packet::Entity(x), r))
                },
                Err(_) => Err(BinError::NoVariant),
            }
        } else if code == 0x5c {
            match parse_until_eof::<EntityMove>(data, q) {
                Ok((x, r)) => {
                    assert(x@.map_values(|e: EntityMove| e@) =~= x@.map_values(|e: EntityMove| e@));
                    Ok((Packet::EntityMove(x), r))
                },
                Err(_) => Err(BinError::NoVariant),
            }
        } else if code == 0x5e {
            match EntityRemove::parse(data, q) {
                Ok((x, r)) => {
                    Ok((Packet::EntityRemove(x), r))
                },
                Err(_) => Err(BinError::NoVariant),
            }
        } else if code == 0x5b {
            match EntityRemove::parse(data, q) {
                Ok((x, r)) => {
                    Ok((Packet::EntityRemove2(x), r))
                },
                Err(_) => Err(BinError::NoVariant),
            }
        } else if code == 0x5f {
            match CharacterMove::parse(data, q) {
                Ok((x, r)) => {
                    Ok((Packet::CharacterMove(x), r))
                },
                Err(_) => Err(BinError::NoVariant),
            }
        } else if code == 0x64 {
            match PosCamera::parse(data, q) {
                Ok((x, r)) => {
                    Ok((Packet::PosCamera(x), r))
                },
                Err(_) => Err(BinError::NoVariant),
            }
        } else if code == 0x92 {
            match UseAbility::parse(data, q) {
                Ok((x, r)) => {
                    Ok((Packet::UseAbility(x), r))
                },
                Err(_) => Err(BinError::NoVariant),
            }
        } else if code == 0x95 {
            match PickupRequest::parse(data, q) {
                Ok((x, r)) => {
                    Ok((Packet::PickupRequest(x), r))
                },
                Err(_) => Err(BinError::NoVariant),
            }
        } else if code == 0x9a {
            match EntityAction::parse(data, q) {
                Ok((x, r)) => {
                    Ok((Packet::EntityAction(x), r))
                },
                Err(_) => Err(BinError::NoVariant),
            }
        } else if code == 0x9c {
            match DealtDamage::parse(data, q) {
                Ok((x, r)) => {
                    Ok((Packet::DealtDamage(x), r))
                },
                Err(_) => Err(BinError::NoVariant),
            }
        } else if code == 0xa0 {
            match EntityActionPassive::parse(data, q) {
                Ok((x, r)) => {
                    Ok((Packet::EntityActionPassive(x), r))
                },
                Err(_) => Err(BinError::NoVariant),
            }
        } else if code == 0xa4 {
            match EntityDeath::parse(data, q) {
                Ok((x, r)) => {
                    Ok((Packet::EntityDeath(x), r))
                },
                Err(_) => Err(BinError::NoVariant),
            }
        } else if code == 0xa7 {
            match StatUpdate::parse(data, q) {
                Ok((x, r)) => {
                    Ok((Packet::StatUpdate(x), r))
                },
                Err(_) => Err(BinError::NoVariant),
            }
        } else if code == 0xae {
            match BattleLog::parse(data, q) {
                Ok((x, r)) => {
                    Ok((Packet::BattleLog(x), r))
                },
                Err(_) => Err(BinError::NoVariant),
            }
        } else if code == 0xaf {
            match ExperienceAmount::parse(data, q) {
                Ok((x, r)) => {
                    Ok((Packet::ExperienceAmount(x), r))
                },
                Err(_) => Err(BinError::NoVariant),
            }
        } else if code == 0xb4 {
            match SkillCooldown::parse(data, q) {
                Ok((x, r)) => {
                    Ok((Packet::SkillCooldown(x), r))
                },
                Err(_) => Err(BinError::NoVariant),
            }
        } else if code == 0xbb {
            match MoveItem::parse(data, q) {
                Ok((x, r)) => {
                    Ok((Packet::MoveItemRequest(x), r))
                },
                Err(_) => Err(BinError::NoVariant),
            }
        } else if code == 0xbe {
            match MoveItem::parse(data, q) {
                Ok((x, r)) => {
                    Ok((Packet::MoveItemResponse(x), r))
                },
                Err(_) => Err(BinError::NoVariant),
            }
        } else if code == 0xc1 {
            match ReceiveItem::parse(data, q) {
                Ok((x, r)) => {
                    Ok((Packet::ReceiveItem(x), r))
                },
                Err(_) => Err(BinError::NoVariant),
            }
        } else if code == 0xc5 {
            match PacketC5::parse(data, q) {
                Ok((x, r)) => {
                    Ok((Packet::PacketC5(x), r))
                },
                Err(_) => Err(BinError::NoVariant),
            }
        } else if code == 0xcd {
            match StatUpdateRequest::parse(data, q) {
                Ok((x, r)) => {
                    Ok((Packet::StatUpdateRequest(x), r))
                },
                Err(_) => Err(BinError::NoVariant),
            }
        } else if code == 0x103 {
            match BuyItemRequest::parse(data, q) {
                Ok((x, r)) => {
                    Ok((Packet::BuyItemRequest(x), r))
                },
                Err(_) => Err(BinError::NoVariant),
            }
        } else if code == 0x105 {
            match SellItemRequest::parse(data, q) {
                Ok((x, r)) => {
                    Ok((Packet::SellItemRequest(x), r))
                },
                Err(_) => Err(BinError::NoVariant),
            }
        } else if code == 0x106 {
            match BuyBack::parse(data, q) {
                Ok((x, r)) => {
                    Ok((Packet::BuyBackRequest(x), r))
                },
                Err(_) => Err(BinError::NoVariant),
            }
        } else if code == 0x107 {
            match BuyBack::parse(data, q) {
                Ok((x, r)) => {
                    Ok((Packet::BuyBackResponse(x), r))
                },
                Err(_) => Err(BinError::NoVariant),
            }
        } else if code == 0x129 {
            match CompressedData::parse(data, q) {
                Ok((x, r)) => {
                    Ok((Packet::CompressedData(x), r))
                },
                Err(_) => Err(BinError::NoVariant),
            }
        } else if code == 0x12a {
            match CompressedData::parse(data, q) {
                Ok((x, r)) => {
                    Ok((Packet::CompressedData2(x), r))
                },
                Err(_) => Err(BinError::NoVariant),
            }
        } else if code == 0x196 {
            match ShowEmotion::parse(data, q) {
                Ok((x, r)) => {
                    Ok((Packet::ShowEmotion(x), r))
                },
                Err(_) => Err(BinError::NoVariant),
            }
        } else if code == 0x199 {
            match Heartbeat2::parse(data, q) {
                Ok((x, r)) => {
                    Ok((Packet::Heartbeat2(x), r))
                },
                Err(_) => Err(BinError::NoVariant),
            }
        } else if code == 0x19c {
            match Heartbeat2::parse(data, q) {
                Ok((x, r)) => {
                    Ok((Packet::Heartbeat3(x), r))
                },
                Err(_) => Err(BinError::NoVariant),
            }
        } else if code == 0x1d4 {
            match ExitRequest::parse(data, q) {
                Ok((x, r)) => {
                    Ok((Packet::ExitRequest(x), r))
                },
                Err(_) => Err(BinError::NoVariant),
            }
        } else if code == 0x1d5 {
            match ExitResponse::parse(data, q) {
                Ok((x, r)) => {
                    Ok((Packet::ExitResponse(x), r))
                },
                Err(_) => Err(BinError::NoVariant),
            }
        } else if code == 0x1d7 {
            match ExitRequest::parse(data, q) {
                Ok((x, r)) => {
                    Ok((Packet::ExitRequestIngame(x), r))
                },
                Err(_) => Err(BinError::NoVariant),
            }
        } else if code == 0x1d8 {
            match ExitResponse::parse(data, q) {
                Ok((x, r)) => {
                    Ok((Packet::ExitResponseIngame(x), r))
                },
                Err(_) => Err(BinError::NoVariant),
            }
        } else {
            Err(BinError::NoVariant)
        }
    }

    #[verifier::spinoff_prover]
    #[verifier::rlimit(100)]
    fn write(&self, out: &mut Vec<u8>) {
        write_le16(out, self.code());
        match self {
            Packet::AuthRequest(x) => x.write(out),
            Packet::ServerList(x) => x.write(out),
            Packet::Packet04(x) => x.write(out),
            Packet::PinResult(x) => x.write(out),
            Packet::Connect(x) => x.write(out),
            Packet::TimeSync(x) => x.write(out),
            Packet::ConnectionError(x) => x.write(out),
            Packet::TimeSyncResponse(x) => x.write(out),
            Packet::CharList(x) => x.write(out),
            Packet::ServerVars(x) => x.write(out),
            Packet::Packet13(x) => x.write(out),
            Packet::Packet16(x) => x.write(out),
            Packet::PlayerData(x) => x.write(out),
            Packet::EnterWorldRequest(x) => x.write(out),
            Packet::Inventory(x) => x.write(out),
            Packet::EnterWorldResponse(x) => x.write(out),
            Packet::HeartbeatClient(x) => x.write(out),
            Packet::HeartbeatServer(x) => x.write(out),
            Packet::SendChatMessage(x) => x.write(out),
            Packet::ChatMessage(x) => x.write(out),
            Packet::UpdateBalance(x) => x.write(out),
            Packet::SwitchLocation(x) => x.write(out),
            Packet::ConnectionClose2 => {},
            Packet::Entity(x) => x.write(out),
            Packet::EntityMove(x) => write_items::<EntityMove>(out, x),
            Packet::EntityRemove(x) => x.write(out),
            Packet::EntityRemove2(x) => x.write(out),
            Packet::CharacterMove(x) => x.write(out),
            Packet::PosCamera(x) => x.write(out),
            Packet::UseAbility(x) => x.write(out),
            Packet::PickupRequest(x) => x.write(out),
            Packet::EntityAction(x) => x.write(out),
            Packet::DealtDamage(x) => x.write(out),
            Packet::EntityActionPassive(x) => x.write(out),
            Packet::EntityDeath(x) => x.write(out),
            Packet::StatUpdate(x) => x.write(out),
            Packet::BattleLog(x) => x.write(out),
            Packet::ExperienceAmount(x) => x.write(out),
            Packet::SkillCooldown(x) => x.write(out),
            Packet::MoveItemRequest(x) => x.write(out),
            Packet::MoveItemResponse(x) => x.write(out),
            Packet::ReceiveItem(x) => x.write(out),
            Packet::PacketC5(x) => x.write(out),
            Packet::StatUpdateRequest(x) => x.write(out),
            Packet::BuyItemRequest(x) => x.write(out),
            Packet::SellItemRequest(x) => x.write(out),
            Packet::BuyBackRequest(x) => x.write(out),
            Packet::BuyBackResponse(x) => x.write(out),
            Packet::CompressedData(x) => x.write(out),
            Packet::CompressedData2(x) => x.write(out),
            Packet::ShowEmotion(x) => x.write(out),
            Packet::Heartbeat2(x) => x.write(out),
            Packet::Heartbeat3(x) => x.write(out),
            Packet::ExitRequest(x) => x.write(out),
            Packet::ExitResponse(x) => x.write(out),
            Packet::ExitRequestIngame(x) => x.write(out),
            Packet::ExitResponseIngame(x) => x.write(out),
        }
        assert(final(out)@ =~= old(out)@ + Self::spec_ser(self@));
    }

    #[verifier::spinoff_prover]
    #[verifier::rlimit(100)]
    proof fn lemma_roundtrip(v: PacketModel, s: Seq<u8>, p: int) {
        lemma_subrange_prefix(s, p, ser16(spec_packet_code(v)), ser_packet_body(v));
        lemma_le16_roundtrip(s, p, spec_packet_code(v));
        match v {
            PacketModel::AuthRequest(x) => AuthRequest::lemma_roundtrip(x, s, p + 2),
            PacketModel::ServerList(x) => ServerList::lemma_roundtrip(x, s, p + 2),
            PacketModel::Packet04(x) => Packet04::lemma_roundtrip(x, s, p + 2),
            PacketModel::PinResult(x) => PinResult::lemma_roundtrip(x, s, p + 2),
            PacketModel::Connect(x) => Connect::lemma_roundtrip(x, s, p + 2),
            PacketModel::TimeSync(x) => TimeSync::lemma_roundtrip(x, s, p + 2),
            PacketModel::ConnectionError(x) => ConnectionError::lemma_roundtrip(x, s, p + 2),
            PacketModel::TimeSyncResponse(x) => TimeSyncResponse::lemma_roundtrip(x, s, p + 2),
            PacketModel::CharList(x) => CharList::lemma_roundtrip(x, s, p + 2),
            PacketModel::ServerVars(x) => ServerVars::lemma_roundtrip(x, s, p + 2),
            PacketModel::Packet13(x) => Packet13::lemma_roundtrip(x, s, p + 2),
            PacketModel::Packet16(x) => Packet16::lemma_roundtrip(x, s, p + 2),
            PacketModel::PlayerData(x) => PlayerData::lemma_roundtrip(x, s, p + 2),
            PacketModel::EnterWorldRequest(x) => EnterWorldRequest::lemma_roundtrip(x, s, p + 2),
            PacketModel::Inventory(x) => Inventory::lemma_roundtrip(x, s, p + 2),
            PacketModel::EnterWorldResponse(x) => EnterWorldResponse::lemma_roundtrip(x, s, p + 2),
            PacketModel::HeartbeatClient(x) => HeartbeatClient::lemma_roundtrip(x, s, p + 2),
            PacketModel::HeartbeatServer(x) => HeartbeatServer::lemma_roundtrip(x, s, p + 2),
            PacketModel::SendChatMessage(x) => SendChatMessage::lemma_roundtrip(x, s, p + 2),
            PacketModel::ChatMessage(x) => ChatMessage::lemma_roundtrip(x, s, p + 2),
            PacketModel::UpdateBalance(x) => UpdateBalance::lemma_roundtrip(x, s, p + 2),
            PacketModel::SwitchLocation(x) => SwitchLocation::lemma_roundtrip(x, s, p + 2),
            PacketModel::ConnectionClose2 => {},
            PacketModel::Entity(x) => Entity::lemma_roundtrip(x, s, p + 2),
            PacketModel::EntityMove(_) => {},
            PacketModel::EntityRemove(x) => EntityRemove::lemma_roundtrip(x, s, p + 2),
            PacketModel::EntityRemove2(x) => EntityRemove::lemma_roundtrip(x, s, p + 2),
            PacketModel::CharacterMove(x) => CharacterMove::lemma_roundtrip(x, s, p + 2),
            PacketModel::PosCamera(x) => PosCamera::lemma_roundtrip(x, s, p + 2),
            PacketModel::UseAbility(x) => UseAbility::lemma_roundtrip(x, s, p + 2),
            PacketModel::PickupRequest(x) => PickupRequest::lemma_roundtrip(x, s, p + 2),
            PacketModel::EntityAction(x) => EntityAction::lemma_roundtrip(x, s, p + 2),
            PacketModel::DealtDamage(x) => DealtDamage::lemma_roundtrip(x, s, p + 2),
            PacketModel::EntityActionPassive(x) => EntityActionPassive::lemma_roundtrip(x, s, p + 2),
            PacketModel::EntityDeath(x) => EntityDeath::lemma_roundtrip(x, s, p + 2),
            PacketModel::StatUpdate(x) => StatUpdate::lemma_roundtrip(x, s, p + 2),
            PacketModel::BattleLog(x) => BattleLog::lemma_roundtrip(x, s, p + 2),
            PacketModel::ExperienceAmount(x) => ExperienceAmount::lemma_roundtrip(x, s, p + 2),
            PacketModel::SkillCooldown(x) => SkillCooldown::lemma_roundtrip(x, s, p + 2),
            PacketModel::MoveItemRequest(x) => MoveItem::lemma_roundtrip(x, s, p + 2),
            PacketModel::MoveItemResponse(x) => MoveItem::lemma_roundtrip(x, s, p + 2),
            PacketModel::ReceiveItem(x) => ReceiveItem::lemma_roundtrip(x, s, p + 2),
            PacketModel::PacketC5(x) => PacketC5::lemma_roundtrip(x, s, p + 2),
            PacketModel::StatUpdateRequest(x) => StatUpdateRequest::lemma_roundtrip(x, s, p + 2),
            PacketModel::BuyItemRequest(x) => BuyItemRequest::lemma_roundtrip(x, s, p + 2),
            PacketModel::SellItemRequest(x) => SellItemRequest::lemma_roundtrip(x, s, p + 2),
            PacketModel::BuyBackRequest(x) => BuyBack::lemma_roundtrip(x, s, p + 2),
            PacketModel::BuyBackResponse(x) => BuyBack::lemma_roundtrip(x, s, p + 2),
            PacketModel::CompressedData(_) => {},
            PacketModel::CompressedData2(_) => {},
            PacketModel::ShowEmotion(x) => ShowEmotion::lemma_roundtrip(x, s, p + 2),
            PacketModel::Heartbeat2(x) => Heartbeat2::lemma_roundtrip(x, s, p + 2),
            PacketModel::Heartbeat3(x) => Heartbeat2::lemma_roundtrip(x, s, p + 2),
            PacketModel::ExitRequest(x) => ExitRequest::lemma_roundtrip(x, s, p + 2),
            PacketModel::ExitResponse(x) => ExitResponse::lemma_roundtrip(x, s, p + 2),
            PacketModel::ExitRequestIngame(x) => ExitRequest::lemma_roundtrip(x, s, p + 2),
            PacketModel::ExitResponseIngame(x) => ExitResponse::lemma_roundtrip(x, s, p + 2),
        }
    }
}

} // verus!
