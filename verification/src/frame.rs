//! Building the authenticated uplink frame around a wire payload.
//!
//! The cryptographic work — payload encryption and the message integrity
//! code — is the lorawan crate's; this module fixes how the node invokes
//! it: an unconfirmed data-up frame on port 1 with no piggybacked MAC
//! commands, the device address and the low 16 bits of the frame counter
//! laid into the header verbatim.

use vstd::prelude::*;
use crate::payload::{spec_payload_bytes, EnvironmentalPayload};

verus! {

/// The authenticated unconfirmed data-up frame that the lorawan crate
/// builds for this address, counter, payload and session-key pair. The
/// construction is deterministic in its arguments, so the whole frame is
/// a function of them; its cryptographic content is not restated here.
pub uninterp spec fn frame_of(
    dev_addr: u32,
    fcnt: u32,
    payload: Seq<u8>,
    nwk_skey: u128,
    app_skey: u128,
) -> Seq<u8>;

/// Relies on lorawan's `DataPayloadCreator` (`new`, `set_confirmed`,
/// `set_uplink`, `set_f_port`, `set_dev_addr`, `set_fcnt`, `build`): with
/// port 1 set, no MAC commands and a 14-byte payload, `build` cannot fail
/// and yields 13 header and integrity bytes around the encrypted payload.
/// The header bytes stated below are written into the buffer verbatim by
/// the creator before encryption, which touches only the payload region.
/// Key bytes are the little-endian form of each 128-bit key.
#[verifier::external_body]
fn build_uplink_frame(
    dev_addr: u32,
    fcnt: u32,
    payload: &[u8; 14],
    nwk_skey: u128,
    app_skey: u128,
) -> (frame: [u8; 27])
    ensures
        frame@ == frame_of(dev_addr, fcnt, payload@, nwk_skey, app_skey),
        frame@[0] == 0x40u8,
        frame@[1] == (dev_addr & 0xff) as u8,
        frame@[2] == ((dev_addr >> 8) & 0xff) as u8,
        frame@[3] == ((dev_addr >> 16) & 0xff) as u8,
        frame@[4] == ((dev_addr >> 24) & 0xff) as u8,
        frame@[5] == 0u8,
        frame@[6] == (fcnt & 0xff) as u8,
        frame@[7] == ((fcnt >> 8) & 0xff) as u8,
        frame@[8] == 1u8,
{
    let mut phy = lorawan::creator::DataPayloadCreator::new();
    phy.set_confirmed(false).set_uplink(true).set_f_port(1);
    phy.set_dev_addr(&dev_addr.to_le_bytes()).set_fcnt(fcnt);
    let nwk = lorawan::keys::NewSKey::from(nwk_skey.to_le_bytes());
    let app = lorawan::keys::AppSKey::from(app_skey.to_le_bytes());
    let bytes_ref = phy.build(payload, &[], &nwk, &app).unwrap();
    let mut frame = [0_u8; 27];
    frame.copy_from_slice(bytes_ref);
    frame
}

/// Return a LoRaWAN unconfirmed data-up frame carrying one sensor
/// reading, addressed with `dev_addr`, sequenced with `fcnt` and
/// authenticated and encrypted under the two session keys.
pub fn data_up_unconfirmed(
    dev_addr: u32,
    fcnt: u32,
    payload: &EnvironmentalPayload,
    nwk_skey: u128,
    app_skey: u128,
) -> (frame: [u8; 27])
    ensures
        frame@ == frame_of(dev_addr, fcnt, spec_payload_bytes(*payload), nwk_skey, app_skey),
        frame@[0] == 0x40u8,
        frame@[1] == (dev_addr & 0xff) as u8,
        frame@[2] == ((dev_addr >> 8) & 0xff) as u8,
        frame@[3] == ((dev_addr >> 16) & 0xff) as u8,
        frame@[4] == ((dev_addr >> 24) & 0xff) as u8,
        frame@[6] == (fcnt & 0xff) as u8,
        frame@[7] == ((fcnt >> 8) & 0xff) as u8,
        frame@[8] == 1u8,
{
    let bytes = payload.to_be_bytes();
    build_uplink_frame(dev_addr, fcnt, &bytes, nwk_skey, app_skey)
}

} // verus!
