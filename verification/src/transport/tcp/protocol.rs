//! The receiving half of TCP: finding the connection of a segment, the
//! passive open, and the segments that answer.

use crate::checksum::{calculate_checksum_u16, lemma_checksum_field, spec_checksum};
use crate::internet::ip;
use crate::internet::ip::IPv4Addr;
use crate::link::{MacAddress, MTU};
use crate::protocol_stack::{spec_outbound_view, Items, Outbound, OutboundView, RxResult};
use crate::transport::protocol::spec_message;
use crate::transport::tcp::control_flag;
use crate::transport::tcp::{
    ConnState, Connection, EndPoint, ProtocolControlBlock, PseudoHeader, SegmentHeader,
};
use crate::transport::{TransportProtocol, TransportProtocolError};
use vstd::prelude::*;

verus! {

/// What a segment to be sent is filled with.
#[derive(Debug, Clone, Copy, PartialEq, Eq, Structural)]
pub struct TxPreparation {
    pub sequence: u32,
    pub acknowledgement: u32,
    pub flg: u8,
    pub window_size: u16,
    pub length: usize,
}

/// The connection table after a segment, and the transmission that answers
/// the segment, if any.
pub struct TcpOutcome {
    pub table: Seq<ProtocolControlBlock>,
    pub outbound: Option<OutboundView>,
}

/// The sequence number behind `n`. Sequence numbers wrap around.
pub open spec fn spec_next_seq(n: u32) -> u32 {
    if n == u32::MAX {
        0
    } else {
        (n + 1) as u32
    }
}

/// The sequence number `len` behind `n`. Sequence numbers wrap around.
pub open spec fn spec_seq_add(n: u32, len: nat) -> u32 {
    ((n + len) % 0x1_0000_0000) as u32
}

/// Whether the local end of `pcb` is the local end of `conn`. A local
/// address of `0.0.0.0` stands for every address.
pub open spec fn spec_local_matches(pcb: ProtocolControlBlock, conn: Connection) -> bool {
    (pcb.conn.local.addr == IPv4Addr::spec_any() || pcb.conn.local.addr == conn.local.addr)
        && pcb.conn.local.port == conn.local.port
}

/// Whether `pcb` is the connection between the two ends of `conn`.
pub open spec fn spec_matches_exactly(pcb: ProtocolControlBlock, conn: Connection) -> bool {
    spec_local_matches(pcb, conn) && pcb.conn.foreign == conn.foreign
}

/// Whether `pcb` listens on the local end of `conn` for anybody.
pub open spec fn spec_matches_listening(pcb: ProtocolControlBlock, conn: Connection) -> bool {
    spec_local_matches(pcb, conn) && pcb.state == ConnState::Listen && pcb.conn.foreign
        == EndPoint::spec_unspecified()
}

/// The first position from `from` on whose block is the connection of `conn`.
pub open spec fn spec_first_exact(table: Seq<ProtocolControlBlock>, conn: Connection, from: int)
    -> Option<int>
    decreases table.len() - from,
{
    if from < 0 || from >= table.len() {
        None
    } else if spec_matches_exactly(table[from], conn) {
        Some(from)
    } else {
        spec_first_exact(table, conn, from + 1)
    }
}

/// The first position from `from` on whose block listens for `conn`.
pub open spec fn spec_first_listening(
    table: Seq<ProtocolControlBlock>,
    conn: Connection,
    from: int,
) -> Option<int>
    decreases table.len() - from,
{
    if from < 0 || from >= table.len() {
        None
    } else if spec_matches_listening(table[from], conn) {
        Some(from)
    } else {
        spec_first_listening(table, conn, from + 1)
    }
}

/// The position of the block that a segment between the ends of `conn`
/// belongs to: the first block that is this very connection; where there is
/// none, the first block that listens on the local end for anybody.
pub open spec fn spec_find_pcb(table: Seq<ProtocolControlBlock>, conn: Connection) -> Option<int> {
    match spec_first_exact(table, conn, 0) {
        Some(i) => Some(i),
        None => spec_first_listening(table, conn, 0),
    }
}

/// Whether a segment has no connection to go to: no block was found for it,
/// or the block found is closed.
pub open spec fn spec_no_connection_established(found: Option<(usize, ProtocolControlBlock)>)
    -> bool {
    found is None || found->Some_0.1.state == ConnState::Close
}

/// The length of a segment in sequence space: its data, and one each for
/// SYN and FIN.
pub open spec fn spec_segment_len(header: SegmentHeader, data_len: u16) -> nat {
    data_len as nat + (if header.spec_flag_is_up(control_flag::SYN) {
        1nat
    } else {
        0nat
    }) + (if header.spec_flag_is_up(control_flag::FIN) {
        1nat
    } else {
        0nat
    })
}

/// The reset that answers a segment which has no connection to go to. To a
/// segment with ACK it is a bare RST whose sequence number is what the
/// segment acknowledged. To a segment without ACK it is RST with ACK, at
/// sequence number zero, acknowledging all of the segment.
pub open spec fn spec_reset(header: SegmentHeader, data_len: u16) -> TxPreparation {
    if header.spec_flag_is_up(control_flag::ACK) {
        TxPreparation {
            sequence: header.acknowledgement,
            acknowledgement: 0,
            flg: control_flag::RST,
            window_size: 0,
            length: 0,
        }
    } else {
        TxPreparation {
            sequence: 0,
            acknowledgement: spec_seq_add(header.sequence, spec_segment_len(header, data_len)),
            flg: control_flag::RST_ACK,
            window_size: 0,
            length: 0,
        }
    }
}

/// What a segment with control bits `flg` sent on `pcb` is filled with: a
/// SYN carries the initial send sequence number, any other segment the next
/// one to send; each acknowledges what is expected next and offers the
/// receive window.
pub open spec fn spec_prepare_for_tx(flg: u8, length: u32, pcb: ProtocolControlBlock)
    -> TxPreparation {
    TxPreparation {
        sequence: if control_flag::spec_is_up(flg, control_flag::SYN) {
            pcb.iss
        } else {
            pcb.send.next
        },
        acknowledgement: pcb.receive.next,
        flg,
        window_size: pcb.receive.window_size,
        length: length as usize,
    }
}

/// The header of a segment from the local to the foreign end of `conn`,
/// before its checksum is filled in.
pub open spec fn spec_tx_header(tx_prep: TxPreparation, conn: Connection) -> SegmentHeader {
    SegmentHeader {
        src_port: conn.local.port,
        dst_port: conn.foreign.port,
        sequence: tx_prep.sequence,
        acknowledgement: tx_prep.acknowledgement,
        offset: 0x50,
        flg: tx_prep.flg,
        window_size: tx_prep.window_size,
        checksum: 0,
        urgent_pointer: 0,
    }
}

/// The pseudo header of a segment of `tcp_len` bytes from `src` to `dst`.
pub open spec fn spec_pseudo_header(src: IPv4Addr, dst: IPv4Addr, tcp_len: nat) -> PseudoHeader {
    PseudoHeader { src_addr: src, dst_addr: dst, length: tcp_len as u16 }
}

/// The segment that carries `data` from `src` to `dst`: the header, whose
/// checksum covers pseudo header, header and data, and then the data.
#[verifier::opaque]
pub open spec fn spec_tx_segment_bytes(
    src: IPv4Addr,
    dst: IPv4Addr,
    tx_prep: TxPreparation,
    data: Seq<u8>,
    conn: Connection,
) -> Seq<u8> {
    let header = spec_tx_header(tx_prep, conn);
    let pseudo = spec_pseudo_header(src, dst, SegmentHeader::LEAST_LENGTH as nat + data.len());
    let checksum = spec_checksum(pseudo.spec_to_bytes() + header.spec_to_bytes() + data);
    (SegmentHeader { checksum, ..header }).spec_to_bytes() + data
}

/// What sending a segment asks for: the segment, sent as an IPv4 packet to
/// the sender noted in `rx_result`.
pub open spec fn spec_tx_segment(
    dev_addr: MacAddress,
    ip_addr: IPv4Addr,
    cache: Map<u32, MacAddress>,
    tx_prep: TxPreparation,
    data: Seq<u8>,
    conn: Connection,
    rx_result: RxResult,
    id: u16,
) -> Result<OutboundView, TransportProtocolError> {
    match ip::protocol::spec_tx_core(
        dev_addr,
        ip_addr,
        cache,
        rx_result,
        TransportProtocol::TCP,
        spec_tx_segment_bytes(ip_addr, rx_result.src_ip_addr, tx_prep, data, conn),
        id,
    ) {
        Ok(outbound) => Ok(outbound),
        Err(e) => Err(TransportProtocolError::spec_from_internet(e)),
    }
}

/// The block `pcb` once a SYN from the foreign end of `conn` has arrived on
/// it and before the answer is sent: both ends are fixed, the initial
/// sequence numbers are set, the whole buffer is offered as window.
pub open spec fn spec_syn_arrived(
    pcb: ProtocolControlBlock,
    header: SegmentHeader,
    conn: Connection,
    iss: u32,
) -> ProtocolControlBlock {
    ProtocolControlBlock {
        conn,
        irs: spec_next_seq(header.sequence),
        iss,
        receive: crate::transport::tcp::ReceiveInfo {
            next: spec_next_seq(iss),
            window_size: ProtocolControlBlock::WINDOW,
            ..pcb.receive
        },
        ..pcb
    }
}

/// The block `pcb` once its SYN has been answered: the answer's sequence
/// number waits to be acknowledged, the next one is the next to send.
pub open spec fn spec_syn_received(pcb: ProtocolControlBlock) -> ProtocolControlBlock {
    ProtocolControlBlock {
        state: ConnState::SynReceived,
        send: crate::transport::tcp::SendInfo {
            next: spec_next_seq(pcb.iss),
            unacknowleage: pcb.iss,
            ..pcb.send
        },
        ..pcb
    }
}

/// What a segment does that arrives for the listening block `pcb` at
/// position `pcb_idx`. A reset is dropped. An acknowledgement is answered
/// with a reset. A SYN opens the connection: the block at `pcb_idx` becomes
/// the opened block in state SYN-RECEIVED and a SYN with ACK answers. Any
/// other segment is dropped.
pub open spec fn spec_segment_arrives_on_listen(
    dev_addr: MacAddress,
    ip_addr: IPv4Addr,
    cache: Map<u32, MacAddress>,
    table: Seq<ProtocolControlBlock>,
    header: SegmentHeader,
    conn: Connection,
    pcb: ProtocolControlBlock,
    pcb_idx: int,
    rx_result: RxResult,
    data_len: u16,
    iss: u32,
    id: u16,
) -> Result<TcpOutcome, TransportProtocolError> {
    if header.spec_flag_is_up(control_flag::RST) {
        Ok(TcpOutcome { table, outbound: None })
    } else if header.spec_flag_is_up(control_flag::ACK) {
        match spec_tx_segment(
            dev_addr,
            ip_addr,
            cache,
            spec_reset(header, data_len),
            Seq::<u8>::empty(),
            conn,
            rx_result,
            id,
        ) {
            Ok(outbound) => Ok(TcpOutcome { table, outbound: Some(outbound) }),
            Err(e) => Err(e),
        }
    } else if header.spec_flag_is_up(control_flag::SYN) {
        let opened = spec_syn_arrived(pcb, header, conn, iss);
        match spec_tx_segment(
            dev_addr,
            ip_addr,
            cache,
            spec_prepare_for_tx(control_flag::SYN_ACK, 0, opened),
            Seq::<u8>::empty(),
            conn,
            rx_result,
            id,
        ) {
            Ok(outbound) => Ok(
                TcpOutcome {
                    table: table.update(pcb_idx, spec_syn_received(opened)),
                    outbound: Some(outbound),
                },
            ),
            Err(e) => Err(e),
        }
    } else {
        Ok(TcpOutcome { table, outbound: None })
    }
}

/// What a segment between the ends of `conn` does. Where it has no
/// connection to go to, a reset is dropped and anything else is answered
/// with a reset; the table stays as it is. Where its block listens, the
/// segment is handled as `spec_segment_arrives_on_listen` says. In any other
/// state it is dropped.
pub open spec fn spec_segment_arrives(
    dev_addr: MacAddress,
    ip_addr: IPv4Addr,
    cache: Map<u32, MacAddress>,
    table: Seq<ProtocolControlBlock>,
    header: SegmentHeader,
    conn: Connection,
    rx_result: RxResult,
    data_len: u16,
    iss: u32,
    id: u16,
) -> Result<TcpOutcome, TransportProtocolError> {
    let found = spec_find_pcb(table, conn);
    if found is None || table[found->Some_0].state == ConnState::Close {
        if header.spec_flag_is_up(control_flag::RST) {
            Ok(TcpOutcome { table, outbound: None })
        } else {
            match spec_tx_segment(
                dev_addr,
                ip_addr,
                cache,
                spec_reset(header, data_len),
                Seq::<u8>::empty(),
                conn,
                rx_result,
                id,
            ) {
                Ok(outbound) => Ok(TcpOutcome { table, outbound: Some(outbound) }),
                Err(e) => Err(e),
            }
        }
    } else if table[found->Some_0].state == ConnState::Listen {
        spec_segment_arrives_on_listen(
            dev_addr,
            ip_addr,
            cache,
            table,
            header,
            conn,
            table[found->Some_0],
            found->Some_0,
            rx_result,
            data_len,
            iss,
            id,
        )
    } else {
        Ok(TcpOutcome { table, outbound: None })
    }
}

/// The length in bytes of the header that `header` announces.
pub open spec fn spec_header_len(header: SegmentHeader) -> int {
    header.spec_data_offset() as int * 4
}

/// The two ends of the connection that a segment with `header`, received by
/// the host with address `ip_addr` from the sender noted in `rx_result`,
/// belongs to.
pub open spec fn spec_connection(ip_addr: IPv4Addr, rx_result: RxResult, header: SegmentHeader)
    -> Connection {
    Connection {
        local: EndPoint { addr: ip_addr, port: header.dst_port },
        foreign: EndPoint { addr: rx_result.src_ip_addr, port: header.src_port },
    }
}

/// What receiving the segment in `buf` gives: the header, the data behind
/// it, and what the segment does to the table and asks to be sent. A segment
/// that is shorter than a header, longer than a packet can be, or whose
/// header length points before the end of the fixed header or behind the end
/// of the segment, fails.
pub open spec fn spec_rx(
    dev_addr: MacAddress,
    ip_addr: IPv4Addr,
    cache: Map<u32, MacAddress>,
    table: Seq<ProtocolControlBlock>,
    rx_result: RxResult,
    buf: Seq<u8>,
    iss: u32,
    id: u16,
) -> Result<(SegmentHeader, Seq<u8>, TcpOutcome), TransportProtocolError> {
    let segment = spec_message(rx_result, buf);
    if segment.len() > 0xffff {
        Err(TransportProtocolError::CannotParseTCPSegment)
    } else {
        match SegmentHeader::spec_from_bytes(segment) {
            None => Err(TransportProtocolError::CannotParseTCPSegment),
            Some(header) => if spec_header_len(header) < SegmentHeader::LEAST_LENGTH
                || spec_header_len(header) > segment.len() {
                Err(TransportProtocolError::CannotParseTCPSegment)
            } else {
                match spec_segment_arrives(
                    dev_addr,
                    ip_addr,
                    cache,
                    table,
                    header,
                    spec_connection(ip_addr, rx_result, header),
                    rx_result,
                    (segment.len() - spec_header_len(header)) as u16,
                    iss,
                    id,
                ) {
                    Ok(outcome) => Ok((header, segment.skip(spec_header_len(header)), outcome)),
                    Err(e) => Err(e),
                }
            },
        }
    }
}

impl ProtocolControlBlock {
    /// The window that a block offers: the length of its receive buffer.
    pub const WINDOW: u16 = 65535;

    /// A block is well formed when, while it listens, its foreign end is
    /// unspecified, and, once its SYN is answered, the answer's sequence
    /// number waits to be acknowledged and the next one is the next to send.
    pub open spec fn wf(&self) -> bool {
        &&& self.state == ConnState::Listen ==> self.conn.foreign == EndPoint::spec_unspecified()
        &&& self.state == ConnState::SynReceived ==> self.send.unacknowleage == self.iss
            && self.send.next == spec_next_seq(self.iss)
    }

    /// A block that listens on `port` of `addr` for anybody.
    pub fn listen(addr: IPv4Addr, port: u16) -> (pcb: ProtocolControlBlock)
        ensures
            pcb.wf(),
            pcb.state == ConnState::Listen,
            pcb.conn == (Connection {
                local: EndPoint { addr, port },
                foreign: EndPoint::spec_unspecified(),
            }),
            pcb.irs == 0,
            pcb.iss == 0,
            pcb.receive == (crate::transport::tcp::ReceiveInfo {
                next: 0,
                window_size: 0,
                urgent_pointer: 0,
            }),
            pcb.send == (crate::transport::tcp::SendInfo {
                next: 0,
                window_size: 0,
                urgent_pointer: 0,
                unacknowleage: 0,
                wl1: 0,
                wl2: 0,
            }),
            forall|i: int| 0 <= i < 65535 ==> pcb.buffer@[i] == 0,
    {
        ProtocolControlBlock {
            state: ConnState::Listen,
            conn: Connection {
                local: EndPoint { addr, port },
                foreign: EndPoint { addr: IPv4Addr::any(), port: 0 },
            },
            irs: 0,
            iss: 0,
            receive: crate::transport::tcp::ReceiveInfo {
                next: 0,
                window_size: 0,
                urgent_pointer: 0,
            },
            send: crate::transport::tcp::SendInfo {
                next: 0,
                window_size: 0,
                urgent_pointer: 0,
                unacknowleage: 0,
                wl1: 0,
                wl2: 0,
            },
            buffer: [0; 65535],
        }
    }
}

/// A connection table is well formed when each of its blocks is and no two
/// blocks stand for the same pair of ends.
pub open spec fn spec_table_wf(table: Seq<ProtocolControlBlock>) -> bool {
    &&& forall|k: int| 0 <= k < table.len() ==> (#[trigger] table[k]).wf()
    &&& forall|i: int, j: int|
        #![trigger table[i], table[j]]
        0 <= i < j < table.len() ==> table[i].conn != table[j].conn
}

/// The sequence number behind `n`. Sequence numbers wrap around.
#[verifier::when_used_as_spec(spec_next_seq)]
pub fn next_seq(n: u32) -> (r: u32)
    ensures
        r == spec_next_seq(n),
{
    if n == u32::MAX {
        0
    } else {
        n + 1
    }
}

/// Receives a TCP segment: reads the header, finds the connection and lets
/// the segment arrive there.
///
/// The segment is what `buf` holds up to the payload length noted in
/// `rx_result`. `iss` is the initial send sequence number for a connection
/// that the segment opens, `id` the identification of the packet that
/// carries an answer. The third part of the result is the transmission of
/// the answer, if there is one.
///
/// Fails with `CannotParseTCPSegment` for a segment that is shorter than a
/// header or longer than a packet can be, or whose header length does not
/// lie between the fixed header and the end of the segment; then the table
/// stays as it is.
pub fn rx(items: &mut Items, rx_result: RxResult, buf: &[u8], iss: u32, id: u16) -> (r: Result<
    (SegmentHeader, Vec<u8>, Option<Outbound>),
    TransportProtocolError,
>)
    ensures
        final(items).opt == old(items).opt,
        final(items).arp_table == old(items).arp_table,
        match spec_rx(
            old(items).opt.dev_addr,
            old(items).opt.ip_addr,
            old(items).arp_table@,
            old(items).tcp_connection@,
            rx_result,
            buf@,
            iss,
            id,
        ) {
            Ok((header, rest, outcome)) => r is Ok && r->Ok_0.0 == header && r->Ok_0.1@ == rest
                && spec_outbound_view(r->Ok_0.2) == outcome.outbound
                && final(items).tcp_connection@ == outcome.table,
            Err(e) => r is Err && r->Err_0 == e
                && final(items).tcp_connection@ == old(items).tcp_connection@,
        },
        spec_table_wf(old(items).tcp_connection@) && rx_result.src_ip_addr != IPv4Addr::spec_any()
            ==> spec_table_wf(final(items).tcp_connection@),
{
    let segment_len = if rx_result.message_len < buf.len() {
        rx_result.message_len
    } else {
        buf.len()
    };
    if segment_len > 0xffff {
        return Err(TransportProtocolError::CannotParseTCPSegment);
    }
    let segment = vstd::slice::slice_subrange(buf, 0, segment_len);
    assert(segment@ =~= spec_message(rx_result, buf@));

    let header = SegmentHeader::new_from_bytes(
        segment,
        TransportProtocolError::CannotParseTCPSegment,
    )?;
    let header_len = header.data_offset() as usize * 4;
    if header_len < SegmentHeader::LEAST_LENGTH || header_len > segment_len {
        return Err(TransportProtocolError::CannotParseTCPSegment);
    }
    let local = EndPoint { addr: items.opt.ip_addr, port: header.dst_port };
    let foreign = EndPoint { addr: rx_result.src_ip_addr, port: header.src_port };
    let conn = Connection { local, foreign };
    let data_len = (segment_len - header_len) as u16;

    let outbound = segment_arrives(items, header, conn, rx_result, data_len, iss, id)?;

    let rest = vstd::slice::slice_to_vec(
        vstd::slice::slice_subrange(segment, header_len, segment_len),
    );
    assert(rest@ =~= segment@.skip(header_len as int));
    Ok((header, rest, outbound))
}

/// Lets a segment between the ends of `conn` arrive: finds its block and
/// does what the block's state asks for. The result is the transmission of
/// the answer, if there is one. When the answer cannot be built the table
/// stays as it is.
pub fn segment_arrives(
    items: &mut Items,
    header: SegmentHeader,
    conn: Connection,
    rx_result: RxResult,
    data_len: u16,
    iss: u32,
    id: u16,
) -> (r: Result<Option<Outbound>, TransportProtocolError>)
    ensures
        final(items).opt == old(items).opt,
        final(items).arp_table == old(items).arp_table,
        match spec_segment_arrives(
            old(items).opt.dev_addr,
            old(items).opt.ip_addr,
            old(items).arp_table@,
            old(items).tcp_connection@,
            header,
            conn,
            rx_result,
            data_len,
            iss,
            id,
        ) {
            Ok(outcome) => r is Ok && spec_outbound_view(r->Ok_0) == outcome.outbound
                && final(items).tcp_connection@ == outcome.table,
            Err(e) => r == Err::<Option<Outbound>, TransportProtocolError>(e)
                && final(items).tcp_connection@ == old(items).tcp_connection@,
        },
        spec_table_wf(old(items).tcp_connection@) && conn.foreign != EndPoint::spec_unspecified()
            ==> spec_table_wf(final(items).tcp_connection@),
{
    proof {
        if spec_table_wf(items.tcp_connection@) && conn.foreign != EndPoint::spec_unspecified()
            && spec_segment_arrives(
            items.opt.dev_addr,
            items.opt.ip_addr,
            items.arp_table@,
            items.tcp_connection@,
            header,
            conn,
            rx_result,
            data_len,
            iss,
            id,
        ) is Ok {
            lemma_table_stays_well_formed(
                items.opt.dev_addr,
                items.opt.ip_addr,
                items.arp_table@,
                items.tcp_connection@,
                header,
                conn,
                rx_result,
                data_len,
                iss,
                id,
            );
        }
    }
    let pcb = find_pcb(items, conn);
    if no_connection_established(header, pcb) {
        if header.flag_is_up(control_flag::RST) {
            return Ok(None);
        }
        let tx_prep = prepare_reset(header, data_len);
        let outbound = tx(items, Vec::new(), tx_prep, conn, rx_result, id)?;
        return Ok(Some(outbound));
    }
    let (pcb_idx, pcb) = pcb.unwrap();

    match pcb.state {
        ConnState::Listen => {
            segment_arrives_on_listen(
                items,
                header,
                conn,
                pcb,
                pcb_idx,
                rx_result,
                data_len,
                iss,
                id,
            )
        },
        _ => Ok(None),
    }
}

/// Lets a segment arrive for the listening block `pcb`, which stands at
/// position `pcb_idx` of the table. A SYN opens the connection; the block is
/// stored in state SYN-RECEIVED together with the answer being handed out.
pub fn segment_arrives_on_listen(
    items: &mut Items,
    header: SegmentHeader,
    conn: Connection,
    pcb: ProtocolControlBlock,
    pcb_idx: usize,
    rx_result: RxResult,
    data_len: u16,
    iss: u32,
    id: u16,
) -> (r: Result<Option<Outbound>, TransportProtocolError>)
    requires
        pcb_idx < old(items).tcp_connection@.len(),
    ensures
        final(items).opt == old(items).opt,
        final(items).arp_table == old(items).arp_table,
        match spec_segment_arrives_on_listen(
            old(items).opt.dev_addr,
            old(items).opt.ip_addr,
            old(items).arp_table@,
            old(items).tcp_connection@,
            header,
            conn,
            pcb,
            pcb_idx as int,
            rx_result,
            data_len,
            iss,
            id,
        ) {
            Ok(outcome) => r is Ok && spec_outbound_view(r->Ok_0) == outcome.outbound
                && final(items).tcp_connection@ == outcome.table,
            Err(e) => r == Err::<Option<Outbound>, TransportProtocolError>(e)
                && final(items).tcp_connection@ == old(items).tcp_connection@,
        },
{
    if header.flag_is_up(control_flag::RST) {
        // A reset to a listening block is dropped.
        return Ok(None);
    }
    if header.flag_is_up(control_flag::ACK) {
        // Nothing was sent that could be acknowledged.
        let tx_prep = prepare_reset(header, data_len);
        let outbound = tx(items, Vec::new(), tx_prep, conn, rx_result, id)?;
        return Ok(Some(outbound));
    }
    if header.flag_is_up(control_flag::SYN) {
        let mut pcb = pcb;
        pcb.conn.local = conn.local;
        pcb.conn.foreign = conn.foreign;
        pcb.receive.window_size = ProtocolControlBlock::WINDOW;
        pcb.irs = next_seq(header.sequence);
        pcb.iss = iss;
        pcb.receive.next = next_seq(pcb.iss);

        // The second step of the handshake: SYN with ACK.
        let tx_prep = prepare_for_tx(control_flag::SYN_ACK, 0, pcb);
        let outbound = tx(items, Vec::new(), tx_prep, conn, rx_result, id)?;

        pcb.send.next = next_seq(pcb.iss);
        pcb.send.unacknowleage = pcb.iss;
        pcb.state = ConnState::SynReceived;

        items.tcp_connection.set(pcb_idx, pcb);
        return Ok(Some(outbound));
    }
    Ok(None)
}

/// Fills in the reset that answers a segment which has no connection to go
/// to.
pub fn prepare_reset(header: SegmentHeader, data_len: u16) -> (tx_prep: TxPreparation)
    ensures
        tx_prep == spec_reset(header, data_len),
{
    if header.flag_is_up(control_flag::ACK) {
        TxPreparation {
            sequence: header.acknowledgement,
            acknowledgement: 0,
            flg: control_flag::RST,
            window_size: 0,
            length: 0,
        }
    } else {
        let mut segment_len: u64 = data_len as u64;
        if header.flag_is_up(control_flag::SYN) {
            segment_len = segment_len + 1;
        }
        if header.flag_is_up(control_flag::FIN) {
            segment_len = segment_len + 1;
        }
        TxPreparation {
            sequence: 0,
            acknowledgement: ((header.sequence as u64 + segment_len) % 0x1_0000_0000) as u32,
            flg: control_flag::RST_ACK,
            window_size: 0,
            length: 0,
        }
    }
}

/// Fills in a segment with control bits `flg` and `length` bytes of data
/// that is sent on `pcb`.
pub fn prepare_for_tx(flg: u8, length: u32, pcb: ProtocolControlBlock) -> (tx_prep: TxPreparation)
    ensures
        tx_prep == spec_prepare_for_tx(flg, length, pcb),
{
    let seq = if control_flag::is_up(flg, control_flag::SYN) {
        pcb.iss
    } else {
        pcb.send.next
    };
    TxPreparation {
        flg,
        length: length as usize,
        sequence: seq,
        acknowledgement: pcb.receive.next,
        window_size: pcb.receive.window_size,
    }
}

/// Builds the segment that `tx_prep` describes around `data`, and the packet
/// with identification `id` that carries it to the sender noted in
/// `rx_result`.
pub fn tx(
    items: &Items,
    data: Vec<u8>,
    tx_prep: TxPreparation,
    conn: Connection,
    rx_result: RxResult,
    id: u16,
) -> (r: Result<Outbound, TransportProtocolError>)
    ensures
        match spec_tx_segment(
            items.opt.dev_addr,
            items.opt.ip_addr,
            items.arp_table@,
            tx_prep,
            data@,
            conn,
            rx_result,
            id,
        ) {
            Ok(outbound) => r is Ok && r->Ok_0@ == outbound,
            Err(e) => r == Err::<Outbound, TransportProtocolError>(e),
        },
{
    tx_segment(items, tx_prep, data, conn, rx_result, id)
}

/// Builds the segment that `tx_prep` describes around `data`: the header
/// with its checksum over pseudo header, header and data, then the data; and
/// the packet with identification `id` that carries it.
///
/// Fails with `IPError` exactly when the internet layer cannot build the
/// packet: the segment is longer than a packet can carry.
pub fn tx_segment(
    items: &Items,
    tx_prep: TxPreparation,
    data: Vec<u8>,
    conn: Connection,
    rx_result: RxResult,
    id: u16,
) -> (r: Result<Outbound, TransportProtocolError>)
    ensures
        match spec_tx_segment(
            items.opt.dev_addr,
            items.opt.ip_addr,
            items.arp_table@,
            tx_prep,
            data@,
            conn,
            rx_result,
            id,
        ) {
            Ok(outbound) => r is Ok && r->Ok_0@ == outbound,
            Err(e) => r == Err::<Outbound, TransportProtocolError>(e),
        },
{
    let mut data = data;
    proof {
        reveal(spec_tx_segment_bytes);
        reveal(ip::protocol::spec_tx_packet);
        assert(spec_tx_segment_bytes(
            items.opt.ip_addr,
            rx_result.src_ip_addr,
            tx_prep,
            data@,
            conn,
        ).len() == 20 + data@.len());
    }
    if data.len() > MTU - 40 {
        return Err(
            TransportProtocolError::IPError {
                e: crate::internet::InternetProtocolError::CannotConstructPacket,
            },
        );
    }
    let mut header = SegmentHeader::default();
    header.src_port = conn.local.port;
    header.dst_port = conn.foreign.port;
    header.sequence = tx_prep.sequence;
    header.acknowledgement = tx_prep.acknowledgement;
    header.offset = (SegmentHeader::LEAST_LENGTH / 4 * 16) as u8;
    header.flg = tx_prep.flg;
    header.window_size = tx_prep.window_size;
    assert(header == spec_tx_header(tx_prep, conn));

    let pseudo = PseudoHeader {
        src_addr: items.opt.ip_addr,
        dst_addr: rx_result.src_ip_addr,
        length: (SegmentHeader::LEAST_LENGTH + data.len()) as u16,
    };
    let mut summed = pseudo.to_bytes(TransportProtocolError::InvalidChecksum)?;
    let mut raw_header = header.to_bytes(TransportProtocolError::InvalidChecksum)?;
    summed.append(&mut raw_header);
    let mut copy = data.clone();
    assert(copy@ == data@);
    summed.append(&mut copy);
    assert(summed@.take(summed@.len() as int) =~= summed@);
    header.checksum = calculate_checksum_u16(
        summed.as_slice(),
        summed.len() as u16,
        TransportProtocolError::InvalidChecksum,
    )?;

    let mut segment = header.to_bytes(TransportProtocolError::InvalidChecksum)?;
    segment.append(&mut data);
    match ip::tx(items, TransportProtocol::TCP, rx_result, segment, id) {
        Ok(outbound) => Ok(outbound),
        Err(e) => Err(TransportProtocolError::from(e)),
    }
}

/// Whether a segment has no connection to go to: no block was found for it,
/// or the block found is closed.
pub fn no_connection_established(
    header: SegmentHeader,
    conn: Option<(usize, ProtocolControlBlock)>,
) -> (process: bool)
    ensures
        process == spec_no_connection_established(conn),
{
    match conn {
        None => true,
        Some((_, pcb)) => pcb.state == ConnState::Close,
    }
}

/// Finds the block that a segment between the ends of `conn` belongs to:
/// the first block that is this very connection; where there is none, the
/// first block that listens on the local end for anybody.
pub fn find_pcb(items: &Items, conn: Connection) -> (r: Option<(usize, ProtocolControlBlock)>)
    ensures
        r is Some <==> spec_find_pcb(items.tcp_connection@, conn) is Some,
        r is Some ==> r->Some_0.0 < items.tcp_connection@.len() && r->Some_0.0 as int
            == spec_find_pcb(items.tcp_connection@, conn)->Some_0 && r->Some_0.1
            == items.tcp_connection@[r->Some_0.0 as int],
{
    let mut i: usize = 0;
    while i < items.tcp_connection.len()
        invariant
            i <= items.tcp_connection@.len(),
            spec_first_exact(items.tcp_connection@, conn, 0) == spec_first_exact(
                items.tcp_connection@,
                conn,
                i as int,
            ),
        decreases items.tcp_connection@.len() - i,
    {
        let pcb = &items.tcp_connection[i];
        if local_matches(pcb, conn) && pcb.conn.foreign == conn.foreign {
            return Some((i, *pcb));
        }
        i += 1;
    }
    let mut i: usize = 0;
    while i < items.tcp_connection.len()
        invariant
            i <= items.tcp_connection@.len(),
            spec_first_exact(items.tcp_connection@, conn, 0) is None,
            spec_first_listening(items.tcp_connection@, conn, 0) == spec_first_listening(
                items.tcp_connection@,
                conn,
                i as int,
            ),
        decreases items.tcp_connection@.len() - i,
    {
        let pcb = &items.tcp_connection[i];
        if local_matches(pcb, conn) {
            if let ConnState::Listen = pcb.state {
                if pcb.conn.foreign.addr == IPv4Addr::any() && pcb.conn.foreign.port == 0 {
                    return Some((i, *pcb));
                }
            }
        }
        i += 1;
    }
    None
}

/// Whether the local end of `pcb` is the local end of `conn`.
pub fn local_matches(pcb: &ProtocolControlBlock, conn: Connection) -> (b: bool)
    ensures
        b == spec_local_matches(*pcb, conn),
{
    (pcb.conn.local.addr == IPv4Addr::any() || pcb.conn.local.addr == conn.local.addr)
        && pcb.conn.local.port == conn.local.port
}

/// Where a block is found as the first that is the connection of `conn`,
/// it is that connection and no block before it is.
pub proof fn lemma_first_exact(table: Seq<ProtocolControlBlock>, conn: Connection, from: int)
    requires
        0 <= from,
    ensures
        match spec_first_exact(table, conn, from) {
            Some(i) => from <= i < table.len() && spec_matches_exactly(table[i], conn) && forall|
                k: int,
            |
                from <= k < i ==> !spec_matches_exactly(#[trigger] table[k], conn),
            None => forall|k: int|
                from <= k < table.len() ==> !spec_matches_exactly(#[trigger] table[k], conn),
        },
    decreases table.len() - from,
{
    if from < table.len() && !spec_matches_exactly(table[from], conn) {
        lemma_first_exact(table, conn, from + 1);
    }
}

/// The first block from `from` on that is the connection of `conn` is found.
pub proof fn lemma_first_exact_is(
    table: Seq<ProtocolControlBlock>,
    conn: Connection,
    from: int,
    i: int,
)
    requires
        0 <= from <= i < table.len(),
        spec_matches_exactly(table[i], conn),
        forall|k: int| from <= k < i ==> !spec_matches_exactly(#[trigger] table[k], conn),
    ensures
        spec_first_exact(table, conn, from) == Some(i),
    decreases i - from,
{
    if from < i {
        lemma_first_exact_is(table, conn, from + 1, i);
    }
}

/// Where a block is found as the first that listens for `conn`, it does and
/// no block before it does.
pub proof fn lemma_first_listening(
    table: Seq<ProtocolControlBlock>,
    conn: Connection,
    from: int,
)
    requires
        0 <= from,
    ensures
        match spec_first_listening(table, conn, from) {
            Some(i) => from <= i < table.len() && spec_matches_listening(table[i], conn),
            None => forall|k: int|
                from <= k < table.len() ==> !spec_matches_listening(#[trigger] table[k], conn),
        },
    decreases table.len() - from,
{
    if from < table.len() && !spec_matches_listening(table[from], conn) {
        lemma_first_listening(table, conn, from + 1);
    }
}

/// The block that is found for a segment stands in the table.
pub proof fn lemma_find_pcb(table: Seq<ProtocolControlBlock>, conn: Connection)
    ensures
        match spec_find_pcb(table, conn) {
            Some(i) => 0 <= i < table.len() && (spec_matches_exactly(table[i], conn)
                || spec_matches_listening(table[i], conn)),
            None => forall|k: int|
                0 <= k < table.len() ==> !spec_matches_exactly(#[trigger] table[k], conn)
                    && !spec_matches_listening(table[k], conn),
        },
{
    lemma_first_exact(table, conn, 0);
    lemma_first_listening(table, conn, 0);
}

/// A segment that is built for sending starts with its header, carries its
/// data behind it, and sums to zero together with its pseudo header, as a
/// receiver will check.
pub proof fn lemma_tx_segment_bytes(
    src: IPv4Addr,
    dst: IPv4Addr,
    tx_prep: TxPreparation,
    data: Seq<u8>,
    conn: Connection,
)
    requires
        PseudoHeader::LENGTH + SegmentHeader::LEAST_LENGTH + data.len() <= 0xffff,
    ensures
        ({
            let segment = spec_tx_segment_bytes(src, dst, tx_prep, data, conn);
            let header = SegmentHeader::spec_from_bytes(segment);
            let pseudo = spec_pseudo_header(src, dst, (20 + data.len()) as nat);
            &&& segment.len() == 20 + data.len()
            &&& segment.skip(20) == data
            &&& header is Some
            &&& (SegmentHeader { checksum: 0, ..header->Some_0 }) == spec_tx_header(tx_prep, conn)
            &&& spec_checksum(pseudo.spec_to_bytes() + segment) == 0
        }),
{
    reveal(spec_tx_segment_bytes);
    let unsummed = spec_tx_header(tx_prep, conn);
    let pseudo = spec_pseudo_header(src, dst, (20 + data.len()) as nat);
    let raw = unsummed.spec_to_bytes();
    let checksum = spec_checksum(pseudo.spec_to_bytes() + raw + data);
    let header = SegmentHeader { checksum, ..unsummed };
    let bytes = header.spec_to_bytes();
    let segment = bytes + data;
    SegmentHeader::lemma_parse_serialize(header);
    assert(segment.skip(20) =~= data);
    assert(SegmentHeader::spec_from_bytes(segment) == Some(header)) by {
        assert(segment.take(20) =~= bytes);
        assert(forall|i: int| 0 <= i < 20 ==> segment[i] == bytes[i]);
    }
    let prefix = pseudo.spec_to_bytes() + raw.take(16);
    let suffix = raw.skip(18) + data;
    assert(pseudo.spec_to_bytes() + raw + data =~= prefix + seq![0u8, 0u8] + suffix);
    assert(pseudo.spec_to_bytes() + segment =~= prefix
        + crate::byteorder_wrapper::spec_u16_be_bytes(checksum) + suffix);
    lemma_checksum_field(prefix, suffix);
}

/// A segment that has no connection to go to changes nothing in the table.
/// A reset is dropped; any other segment, a SYN to a port that nobody
/// listens on among them, is answered with a reset.
pub proof fn lemma_no_connection_is_reset(
    dev_addr: MacAddress,
    ip_addr: IPv4Addr,
    cache: Map<u32, MacAddress>,
    table: Seq<ProtocolControlBlock>,
    header: SegmentHeader,
    conn: Connection,
    rx_result: RxResult,
    data_len: u16,
    iss: u32,
    id: u16,
)
    requires
        spec_find_pcb(table, conn) is None || table[spec_find_pcb(table, conn)->Some_0].state
            == ConnState::Close,
    ensures
        ({
            let r = spec_segment_arrives(
                dev_addr,
                ip_addr,
                cache,
                table,
                header,
                conn,
                rx_result,
                data_len,
                iss,
                id,
            );
            let reset = spec_tx_segment(
                dev_addr,
                ip_addr,
                cache,
                spec_reset(header, data_len),
                Seq::<u8>::empty(),
                conn,
                rx_result,
                id,
            );
            &&& r is Ok
            &&& r->Ok_0.table == table
            &&& header.spec_flag_is_up(control_flag::RST) ==> r->Ok_0.outbound is None
            &&& !header.spec_flag_is_up(control_flag::RST) ==> reset is Ok && r->Ok_0.outbound
                == Some(reset->Ok_0)
            &&& spec_reset(header, data_len).flg == (if header.spec_flag_is_up(control_flag::ACK) {
                control_flag::RST
            } else {
                control_flag::RST_ACK
            })
        }),
{
    reveal(ip::protocol::spec_tx_packet);
    lemma_tx_segment_bytes(
        ip_addr,
        rx_result.src_ip_addr,
        spec_reset(header, data_len),
        Seq::<u8>::empty(),
        conn,
    );
}

/// The passive open. A SYN without RST and ACK whose block listens turns
/// that block, and no other, into the connection between the segment's two
/// ends in state SYN-RECEIVED, with the sequence numbers set; and it is
/// answered with a SYN with ACK that carries the initial send sequence
/// number, acknowledges what is expected next and offers the whole buffer.
pub proof fn lemma_passive_open(
    dev_addr: MacAddress,
    ip_addr: IPv4Addr,
    cache: Map<u32, MacAddress>,
    table: Seq<ProtocolControlBlock>,
    header: SegmentHeader,
    conn: Connection,
    rx_result: RxResult,
    data_len: u16,
    iss: u32,
    id: u16,
)
    requires
        spec_find_pcb(table, conn) is Some,
        table[spec_find_pcb(table, conn)->Some_0].state == ConnState::Listen,
        header.spec_flag_is_up(control_flag::SYN),
        !header.spec_flag_is_up(control_flag::RST),
        !header.spec_flag_is_up(control_flag::ACK),
    ensures
        spec_segment_arrives(
            dev_addr,
            ip_addr,
            cache,
            table,
            header,
            conn,
            rx_result,
            data_len,
            iss,
            id,
        ) is Ok,
        ({
            let i = spec_find_pcb(table, conn)->Some_0;
            let outcome = spec_segment_arrives(
                dev_addr,
                ip_addr,
                cache,
                table,
                header,
                conn,
                rx_result,
                data_len,
                iss,
                id,
            )->Ok_0;
            let opened = outcome.table[i];
            &&& 0 <= i < table.len()
            &&& outcome.table.len() == table.len()
            &&& forall|k: int| 0 <= k < table.len() && k != i ==> outcome.table[k] == table[k]
            &&& opened.state == ConnState::SynReceived
            &&& opened.conn == conn
            &&& opened.irs == spec_next_seq(header.sequence)
            &&& opened.iss == iss
            &&& opened.send.unacknowleage == iss
            &&& opened.send.next == spec_next_seq(iss)
            &&& opened.receive.next == spec_next_seq(iss)
            &&& opened.receive.window_size == ProtocolControlBlock::WINDOW
            &&& opened.wf()
            &&& outcome.outbound == Some(
                spec_tx_segment(
                    dev_addr,
                    ip_addr,
                    cache,
                    TxPreparation {
                        sequence: iss,
                        acknowledgement: spec_next_seq(iss),
                        flg: control_flag::SYN_ACK,
                        window_size: ProtocolControlBlock::WINDOW,
                        length: 0,
                    },
                    Seq::<u8>::empty(),
                    conn,
                    rx_result,
                    id,
                )->Ok_0,
            )
        }),
{
    lemma_find_pcb(table, conn);
    control_flag::lemma_combined_flags();
    reveal(ip::protocol::spec_tx_packet);
    let i = spec_find_pcb(table, conn)->Some_0;
    let opened = spec_syn_arrived(table[i], header, conn, iss);
    let tx_prep = spec_prepare_for_tx(control_flag::SYN_ACK, 0, opened);
    lemma_tx_segment_bytes(ip_addr, rx_result.src_ip_addr, tx_prep, Seq::<u8>::empty(), conn);
}

/// A second SYN between the same two ends finds the connection that the
/// first one opened, and is dropped: the table stays as it is, no block is
/// added, nothing is sent.
pub proof fn lemma_second_syn_opens_nothing(
    dev_addr: MacAddress,
    ip_addr: IPv4Addr,
    cache: Map<u32, MacAddress>,
    table: Seq<ProtocolControlBlock>,
    header: SegmentHeader,
    conn: Connection,
    rx_result: RxResult,
    data_len: u16,
    iss: u32,
    id: u16,
    second_iss: u32,
    second_id: u16,
)
    requires
        spec_find_pcb(table, conn) is Some,
        table[spec_find_pcb(table, conn)->Some_0].state == ConnState::Listen,
        header.spec_flag_is_up(control_flag::SYN),
        !header.spec_flag_is_up(control_flag::RST),
        !header.spec_flag_is_up(control_flag::ACK),
    ensures
        ({
            let first = spec_segment_arrives(
                dev_addr,
                ip_addr,
                cache,
                table,
                header,
                conn,
                rx_result,
                data_len,
                iss,
                id,
            )->Ok_0;
            let second = spec_segment_arrives(
                dev_addr,
                ip_addr,
                cache,
                first.table,
                header,
                conn,
                rx_result,
                data_len,
                second_iss,
                second_id,
            );
            &&& second is Ok
            &&& second->Ok_0.table == first.table
            &&& second->Ok_0.table.len() == table.len()
            &&& second->Ok_0.outbound is None
        }),
{
    lemma_passive_open(dev_addr, ip_addr, cache, table, header, conn, rx_result, data_len, iss, id);
    lemma_first_exact(table, conn, 0);
    lemma_first_listening(table, conn, 0);
    let i = spec_find_pcb(table, conn)->Some_0;
    let first = spec_segment_arrives(
        dev_addr,
        ip_addr,
        cache,
        table,
        header,
        conn,
        rx_result,
        data_len,
        iss,
        id,
    )->Ok_0;
    assert forall|k: int| 0 <= k < i implies !spec_matches_exactly(
        #[trigger] first.table[k],
        conn,
    ) by {
        assert(first.table[k] == table[k]);
    }
    lemma_first_exact_is(first.table, conn, 0, i);
}

/// Well-formed blocks stay well formed whatever segment arrives.
pub proof fn lemma_blocks_stay_well_formed(
    dev_addr: MacAddress,
    ip_addr: IPv4Addr,
    cache: Map<u32, MacAddress>,
    table: Seq<ProtocolControlBlock>,
    header: SegmentHeader,
    conn: Connection,
    rx_result: RxResult,
    data_len: u16,
    iss: u32,
    id: u16,
)
    requires
        forall|k: int| 0 <= k < table.len() ==> (#[trigger] table[k]).wf(),
        spec_segment_arrives(
            dev_addr,
            ip_addr,
            cache,
            table,
            header,
            conn,
            rx_result,
            data_len,
            iss,
            id,
        ) is Ok,
    ensures
        ({
            let outcome = spec_segment_arrives(
                dev_addr,
                ip_addr,
                cache,
                table,
                header,
                conn,
                rx_result,
                data_len,
                iss,
                id,
            )->Ok_0;
            &&& outcome.table.len() == table.len()
            &&& forall|k: int| 0 <= k < outcome.table.len() ==> (#[trigger] outcome.table[k]).wf()
        }),
{
    lemma_find_pcb(table, conn);
}

/// A well-formed table stays well formed whatever segment arrives from a
/// foreign end that is not the unspecified one: no segment makes two blocks
/// of one connection.
pub proof fn lemma_table_stays_well_formed(
    dev_addr: MacAddress,
    ip_addr: IPv4Addr,
    cache: Map<u32, MacAddress>,
    table: Seq<ProtocolControlBlock>,
    header: SegmentHeader,
    conn: Connection,
    rx_result: RxResult,
    data_len: u16,
    iss: u32,
    id: u16,
)
    requires
        spec_table_wf(table),
        conn.foreign != EndPoint::spec_unspecified(),
        spec_segment_arrives(
            dev_addr,
            ip_addr,
            cache,
            table,
            header,
            conn,
            rx_result,
            data_len,
            iss,
            id,
        ) is Ok,
    ensures
        spec_table_wf(
            spec_segment_arrives(
                dev_addr,
                ip_addr,
                cache,
                table,
                header,
                conn,
                rx_result,
                data_len,
                iss,
                id,
            )->Ok_0.table,
        ),
{
    let after = spec_segment_arrives(
        dev_addr,
        ip_addr,
        cache,
        table,
        header,
        conn,
        rx_result,
        data_len,
        iss,
        id,
    )->Ok_0.table;
    lemma_blocks_stay_well_formed(
        dev_addr,
        ip_addr,
        cache,
        table,
        header,
        conn,
        rx_result,
        data_len,
        iss,
        id,
    );
    lemma_find_pcb(table, conn);
    lemma_first_exact(table, conn, 0);
    if after != table {
        let found = spec_find_pcb(table, conn)->Some_0;
        assert(table[found].state == ConnState::Listen);
        assert(table[found].wf());
        assert(after == table.update(found, after[found]));
        assert(after[found].conn == conn);
        assert forall|i: int, j: int|
            #![trigger after[i], after[j]]
            0 <= i < j < after.len() implies after[i].conn != after[j].conn by {
            if i == found {
                if table[j].conn == conn {
                    assert(spec_matches_exactly(table[j], conn));
                }
            } else if j == found {
                if table[i].conn == conn {
                    assert(spec_matches_exactly(table[i], conn));
                }
            } else {
                assert(after[i] == table[i] && after[j] == table[j]);
            }
        }
    }
}

} // verus!
