//! What the transport layer decides.

use vstd::prelude::*;
use crate::net::addr::PeerAddr;
use crate::net::discovery::{unicast_v4, DiscoveryParams};
use crate::net::framed::{frame_len, frames};
use crate::net::gtsm::is_gtsm_valid;
use crate::net::tls::{
    load_certs, load_private_key, octets_of, pem_certificates, pem_private_key,
    require_private_key, KeyFormat, PemError,
};
use crate::proto::addr::{IpAddr, Ipv4Addr, SocketAddr};
use crate::proto::message::MessageView;
use crate::proto::wire;

verus! {

/// A packet comes from the same link exactly if its time to live is 255.
pub proof fn law_only_full_time_to_live(ttl: u8, answer: bool)
    requires
        call_ensures(is_gtsm_valid, (ttl,), answer),
    ensures
        answer <==> ttl == 255,
{
}

/// A frame is four octets and as many more as the third and fourth say; it is
/// there once all of them are.
pub proof fn law_frame_is_what_the_header_says(stream: Seq<u8>)
    ensures
        stream.len() < 4 ==> frame_len(stream) is None,
        stream.len() >= 4 ==> frame_len(stream) == if stream.len() >= 4 + stream[2] * 256
            + stream[3] {
            Some((4 + stream[2] * 256 + stream[3]) as nat)
        } else {
            None
        },
{
    if stream.len() >= 4 {
        wire::lemma_from_be_two(stream.subrange(2, 4));
    }
}

/// A stream is read frame by frame.
pub proof fn law_stream_is_read_frame_by_frame(stream: Seq<u8>)
    ensures
        match frame_len(stream) {
            None => frames(stream).len() == 0,
            Some(n) => frames(stream).len() > 0 && frames(stream)[0] == MessageView::read(
                stream.take(n as int),
            ) && frames(stream).skip(1) == frames(stream.skip(n as int)),
        },
{
    if let Some(n) = frame_len(stream) {
        assert(frames(stream).skip(1) =~= frames(stream.skip(n as int)));
    }
}

/// Signals to the group go to the group's port, or to the port that was bound
/// where none is given.
pub proof fn law_group_port(params: DiscoveryParams, bound: u16)
    ensures
        params.sends_to(bound) == if params.group_port is Some {
            params.group_port->Some_0
        } else {
            bound
        },
{
}

/// A unicast signal goes to the IPv4 endpoint that was given, and to no other.
pub proof fn law_unicast_goes_where_it_is_sent(dest: SocketAddr, at: Option<(Ipv4Addr, u16)>)
    requires
        call_ensures(unicast_v4, (dest,), at),
    ensures
        match dest.ip {
            IpAddr::V4(addr) => at == Some((addr, dest.port)),
            IpAddr::V6(_) => at is None,
        },
{
}

/// A peer is connected to at its address and port.
pub proof fn law_peer_endpoint(peer: PeerAddr, addr: SocketAddr)
    requires
        call_ensures(PeerAddr::socket_addr, (&peer,), addr),
    ensures
        addr.ip == peer.addr,
        addr.port == peer.port,
{
}

/// What is found of a private key decides: the key, or an error that says
/// whether the text was bad or held none.
pub proof fn law_private_key_or_error(
    found: Result<Option<(KeyFormat, Vec<u8>)>, String>,
    answer: Result<(KeyFormat, Vec<u8>), PemError>,
)
    requires
        call_ensures(require_private_key, (found,), answer),
    ensures
        match found {
            Ok(Some(key)) => answer == Ok::<(KeyFormat, Vec<u8>), PemError>(key),
            Ok(None) => answer matches Err(e) && e is NoPrivateKey,
            Err(why) => answer matches Err(e) && e == PemError::Malformed(why),
        },
{
}

/// Certificates and keys are those that stand in the text, octet by octet.
pub proof fn law_tls_material_is_what_was_read(
    text: &[u8],
    certs: Result<Vec<Vec<u8>>, PemError>,
    key: Result<(KeyFormat, Vec<u8>), PemError>,
)
    requires
        call_ensures(load_certs, (text,), certs),
        call_ensures(load_private_key, (text,), key),
    ensures
        certs is Ok <==> pem_certificates(text@) is Ok,
        certs matches Ok(list) ==> list@.len() == pem_certificates(text@)->Ok_0.len() && (forall|
            i: int,
        |
            0 <= i < list@.len() ==> (#[trigger] list@[i])@ == pem_certificates(text@)->Ok_0[i]),
        key is Ok <==> pem_private_key(text@) matches Ok(Some(_)),
        key matches Ok(k) ==> pem_private_key(text@) matches Ok(Some(read)) && k.0 == read.0
            && k.1@ == read.1,
{
    if let Ok(list) = certs {
        assert(octets_of(list@) == pem_certificates(text@)->Ok_0);
        assert forall|i: int| 0 <= i < list@.len() implies (#[trigger] list@[i])@
            == pem_certificates(text@)->Ok_0[i] by {
            assert(octets_of(list@)[i] == list@[i]@);
        }
    }
}

} // verus!
