//! Command words: the command type in the high byte, the command id in the low one.
use vstd::prelude::*;

verus! {

// Sync commands
pub const CMD_INQUIRY: u16 = 0x4327;

pub const CMD_INQUIRY_RESPONSE: u16 = 0x4328;

pub const CMD_GET_ENR: u16 = 0x4302;

pub const CMD_ENR_RESPONSE: u16 = 0x4303;

pub const CMD_GET_MAC: u16 = 0x4304;

pub const CMD_MAC_RESPONSE: u16 = 0x4305;

// Async commands
pub const CMD_GET_VERSION: u16 = 0x5316;

pub const CMD_VERSION_RESPONSE: u16 = 0x5317;

pub const CMD_FINISH_AUTH: u16 = 0x5314;

pub const CMD_FINISH_AUTH_RESPONSE: u16 = 0x5315;

pub const CMD_SET_SCAN: u16 = 0x531C;

pub const CMD_SET_SCAN_RESPONSE: u16 = 0x531D;

pub const CMD_SENSOR_SCAN: u16 = 0x5320;

pub const CMD_GET_R1: u16 = 0x5321;

pub const CMD_R1_RESPONSE: u16 = 0x5322;

pub const CMD_VERIFY_SENSOR: u16 = 0x5323;

pub const CMD_VERIFY_SENSOR_RESPONSE: u16 = 0x5324;

pub const CMD_DELETE_SENSOR: u16 = 0x5325;

pub const CMD_DELETE_SENSOR_RESPONSE: u16 = 0x5326;

pub const CMD_ALARM1: u16 = 0x5319;

pub const CMD_ALARM2: u16 = 0x5355;

pub const CMD_GET_SENSOR_COUNT: u16 = 0x532E;

pub const CMD_SENSOR_COUNT_RESPONSE: u16 = 0x532F;

pub const CMD_GET_SENSOR_LIST: u16 = 0x5330;

pub const CMD_SENSOR_LIST_ITEM: u16 = 0x5331;

pub const CMD_TIME_SYNC: u16 = 0x5332;

pub const CMD_TIME_SYNC_RESPONSE: u16 = 0x5333;

pub const CMD_EVENT_LOG: u16 = 0x5335;

pub const CMD_PLAY_CHIME: u16 = 0x5370;

pub const CMD_PLAY_CHIME_RESPONSE: u16 = 0x5371;

pub const CMD_ASYNC_ACK: u16 = 0x53FF;

/// The reply to a request has the word that follows the request's; the word of an
/// acknowledgement is the last of the dongle's own.
pub proof fn law_replies_follow_their_requests()
    ensures
        CMD_INQUIRY_RESPONSE == CMD_INQUIRY + 1,
        CMD_ENR_RESPONSE == CMD_GET_ENR + 1,
        CMD_MAC_RESPONSE == CMD_GET_MAC + 1,
        CMD_VERSION_RESPONSE == CMD_GET_VERSION + 1,
        CMD_FINISH_AUTH_RESPONSE == CMD_FINISH_AUTH + 1,
        CMD_SET_SCAN_RESPONSE == CMD_SET_SCAN + 1,
        CMD_R1_RESPONSE == CMD_GET_R1 + 1,
        CMD_VERIFY_SENSOR_RESPONSE == CMD_VERIFY_SENSOR + 1,
        CMD_DELETE_SENSOR_RESPONSE == CMD_DELETE_SENSOR + 1,
        CMD_SENSOR_COUNT_RESPONSE == CMD_GET_SENSOR_COUNT + 1,
        CMD_SENSOR_LIST_ITEM == CMD_GET_SENSOR_LIST + 1,
        CMD_TIME_SYNC_RESPONSE == CMD_TIME_SYNC + 1,
        CMD_PLAY_CHIME_RESPONSE == CMD_PLAY_CHIME + 1,
        CMD_ASYNC_ACK == 0x5300 + 0xFF,
{
}

} // verus!
