//! The wire protocol between the controller and the monitored nodes: a
//! closed set of operation codes, strict binary framing (one code byte, an
//! 8-byte length, then the payload bytes, which the transport never
//! interprets), and the packet types the two sides exchange. Every call is
//! one request followed by exactly one response; a response with an
//! unexpected code is a protocol error.

use vstd::prelude::*;
use crate::readvalue::{read_u64, spec_u64_from_be_bytes, spec_u64_to_be_bytes, write_u64};
use crate::strutil::{prefix_until, spec_prefix_until};
use crate::storage::opdb::HostInfoValue;
use crate::ha::nodes_manager::SlaveInfo;

verus! {

/// The operation codes of the wire protocol.
#[derive(Debug, Clone, Copy, PartialEq, Eq, Structural)]
pub enum MyProtocol {
    MysqlCheck,
    GetMonitor,
    GetSlowLog,
    GetAuditLog,
    /// Make the receiving node the new primary.
    SetMaster,
    /// Point the receiving node at a new primary.
    ChangeMaster,
    /// Pull the log segment a deposed primary holds beyond a given position.
    PullBinlog,
    /// Push a pulled log segment into the new primary.
    PushBinlog,
    /// Resynchronize a returned node from the recovery coordinates.
    RecoveryCluster,
    /// Fetch the recovery coordinates of a new primary.
    GetRecoveryInfo,
    /// Rolled-back transactions sent back for operator review.
    RecoveryValue,
    ReplicationStatus,
    /// Corroborate a suspected-down node from a peer.
    DownNodeCheck,
    Ping,
    SetVariables,
    RecoveryVariables,
    /// Replay approved statements on the primary.
    Command,
    ResponseOk,
    ResponseError,
    UnKnow,
}

/// The byte that stands for each operation code on the wire.
pub open spec fn spec_code(p: MyProtocol) -> u8 {
    match p {
        MyProtocol::MysqlCheck => 0xfe,
        MyProtocol::GetMonitor => 0xfd,
        MyProtocol::GetSlowLog => 0xfc,
        MyProtocol::GetAuditLog => 0xfb,
        MyProtocol::SetMaster => 0xfa,
        MyProtocol::ChangeMaster => 0xf9,
        MyProtocol::PullBinlog => 0xf8,
        MyProtocol::PushBinlog => 0xf2,
        MyProtocol::RecoveryCluster => 0xf7,
        MyProtocol::ResponseOk => 0x00,
        MyProtocol::ResponseError => 0x09,
        MyProtocol::RecoveryValue => 0xf6,
        MyProtocol::ReplicationStatus => 0xf5,
        MyProtocol::DownNodeCheck => 0xf4,
        MyProtocol::GetRecoveryInfo => 0xf3,
        MyProtocol::SetVariables => 0x04,
        MyProtocol::RecoveryVariables => 0x03,
        MyProtocol::Ping => 0x01,
        MyProtocol::Command => 0x05,
        MyProtocol::UnKnow => 0xff,
    }
}

/// The operation code a received byte stands for; bytes outside the closed
/// set decode to `UnKnow`.
pub open spec fn spec_protocol_of(code: u8) -> MyProtocol {
    if code == 0xfe {
        MyProtocol::MysqlCheck
    } else if code == 0xfd {
        MyProtocol::GetMonitor
    } else if code == 0xfc {
        MyProtocol::GetSlowLog
    } else if code == 0xfb {
        MyProtocol::GetAuditLog
    } else if code == 0xfa {
        MyProtocol::SetMaster
    } else if code == 0xf9 {
        MyProtocol::ChangeMaster
    } else if code == 0xf8 {
        MyProtocol::PullBinlog
    } else if code == 0xf7 {
        MyProtocol::RecoveryCluster
    } else if code == 0x00 {
        MyProtocol::ResponseOk
    } else if code == 0x09 {
        MyProtocol::ResponseError
    } else if code == 0xf6 {
        MyProtocol::RecoveryValue
    } else if code == 0xf5 {
        MyProtocol::ReplicationStatus
    } else if code == 0xf4 {
        MyProtocol::DownNodeCheck
    } else if code == 0xf3 {
        MyProtocol::GetRecoveryInfo
    } else if code == 0x04 {
        MyProtocol::SetVariables
    } else if code == 0x03 {
        MyProtocol::RecoveryVariables
    } else if code == 0xf2 {
        MyProtocol::PushBinlog
    } else if code == 0x01 {
        MyProtocol::Ping
    } else if code == 0x05 {
        MyProtocol::Command
    } else {
        MyProtocol::UnKnow
    }
}

/// Encoding an operation code and decoding the byte yields the code again,
/// and decoding any byte of the closed set and re-encoding yields the byte:
/// the code byte of a frame round-trips exactly. `UnKnow` stands for every
/// byte outside the set and is never sent.
pub proof fn lemma_protocol_code_round_trip()
    ensures
        forall|p: MyProtocol| p != MyProtocol::UnKnow ==> spec_protocol_of(#[trigger] spec_code(p))
            == p,
        forall|c: u8| spec_protocol_of(c) != MyProtocol::UnKnow ==> spec_code(
            #[trigger] spec_protocol_of(c),
        ) == c,
{
}

impl MyProtocol {
    /// Decodes the operation-code byte of a received frame.
    pub fn new(code: &u8) -> (r: MyProtocol)
        ensures
            r == spec_protocol_of(*code),
    {
        if code == &0xfe {
            MyProtocol::MysqlCheck
        } else if code == &0xfd {
            MyProtocol::GetMonitor
        } else if code == &0xfc {
            MyProtocol::GetSlowLog
        } else if code == &0xfb {
            MyProtocol::GetAuditLog
        } else if code == &0xfa {
            MyProtocol::SetMaster
        } else if code == &0xf9 {
            MyProtocol::ChangeMaster
        } else if code == &0xf8 {
            MyProtocol::PullBinlog
        } else if code == &0xf7 {
            MyProtocol::RecoveryCluster
        } else if code == &0x00 {
            MyProtocol::ResponseOk
        } else if code == &0x09 {
            MyProtocol::ResponseError
        } else if code == &0xf6 {
            MyProtocol::RecoveryValue
        } else if code == &0xf5 {
            MyProtocol::ReplicationStatus
        } else if code == &0xf4 {
            MyProtocol::DownNodeCheck
        } else if code == &0xf3 {
            MyProtocol::GetRecoveryInfo
        } else if code == &0x04 {
            MyProtocol::SetVariables
        } else if code == &0x03 {
            MyProtocol::RecoveryVariables
        } else if code == &0xf2 {
            MyProtocol::PushBinlog
        } else if code == &0x01 {
            MyProtocol::Ping
        } else if code == &0x05 {
            MyProtocol::Command
        } else {
            MyProtocol::UnKnow
        }
    }

    /// The byte that this operation code puts on the wire.
    pub fn get_code(&self) -> (r: u8)
        ensures
            r == spec_code(*self),
    {
        match self {
            MyProtocol::MysqlCheck => 0xfe,
            MyProtocol::GetMonitor => 0xfd,
            MyProtocol::GetSlowLog => 0xfc,
            MyProtocol::GetAuditLog => 0xfb,
            MyProtocol::SetMaster => 0xfa,
            MyProtocol::ChangeMaster => 0xf9,
            MyProtocol::PullBinlog => 0xf8,
            MyProtocol::PushBinlog => 0xf2,
            MyProtocol::RecoveryCluster => 0xf7,
            MyProtocol::ResponseOk => 0x00,
            MyProtocol::ResponseError => 0x09,
            MyProtocol::RecoveryValue => 0xf6,
            MyProtocol::ReplicationStatus => 0xf5,
            MyProtocol::DownNodeCheck => 0xf4,
            MyProtocol::GetRecoveryInfo => 0xf3,
            MyProtocol::SetVariables => 0x04,
            MyProtocol::RecoveryVariables => 0x03,
            MyProtocol::Ping => 0x01,
            MyProtocol::Command => 0x05,
            MyProtocol::UnKnow => 0xff,
        }
    }

    /// The 9-byte frame header: the operation code, then the payload length,
    /// most significant byte first.
    pub fn header(&self, payload: u64) -> (r: Vec<u8>)
        ensures
            r@ == seq![spec_code(*self)] + spec_u64_to_be_bytes(payload),
            r@.len() == 9,
    {
        let mut buf: Vec<u8> = Vec::new();
        buf.push(self.get_code());
        let mut payload_bytes = write_u64(payload);
        buf.append(&mut payload_bytes);
        buf
    }

    /// The full frame that carries `value` under this operation code.
    pub fn encode_packet(&self, value: &Vec<u8>) -> (r: Vec<u8>)
        requires
            value@.len() + 9 <= u64::MAX,
            value@.len() + 9 <= usize::MAX,
        ensures
            r@ == spec_frame(*self, value@),
    {
        let mut buf = self.header(value.len() as u64);
        push_bytes(&mut buf, value.as_slice());
        proof {
            assert(buf@ =~= spec_frame(*self, value@));
        }
        buf
    }

    /// Accepts a response only when it carries this same operation code, as
    /// the corroboration exchange requires.
    pub fn response_is_self(&self, packet: &RecPacket) -> (r: Result<(), ResponseFault>)
        ensures
            r == if packet.type_code == *self {
                Ok::<(), ResponseFault>(())
            } else {
                Err::<(), ResponseFault>(ResponseFault::UnexpectedCode)
            },
    {
        if packet.type_code == *self {
            Ok(())
        } else {
            Err(ResponseFault::UnexpectedCode)
        }
    }

    /// Classifies a response that may only be `Ok` or `Error`: anything else
    /// is a protocol error.
    pub fn response_code_check(&self, packet: &RecPacket) -> (r: Result<(), ResponseFault>)
        ensures
            r == match packet.type_code {
                MyProtocol::ResponseOk => Ok::<(), ResponseFault>(()),
                MyProtocol::ResponseError => Err::<(), ResponseFault>(ResponseFault::ErrorPacket),
                _ => Err::<(), ResponseFault>(ResponseFault::UnexpectedCode),
            },
    {
        match packet.type_code {
            MyProtocol::ResponseOk => Ok(()),
            MyProtocol::ResponseError => Err(ResponseFault::ErrorPacket),
            _ => Err(ResponseFault::UnexpectedCode),
        }
    }
}

/// Why a response was rejected: the peer answered with an error packet whose
/// payload carries the message, or with a code the exchange does not allow.
#[derive(Debug, Clone, Copy, PartialEq, Eq, Structural)]
pub enum ResponseFault {
    ErrorPacket,
    UnexpectedCode,
}

/// The bytes of one frame: code, length (most significant byte first),
/// payload.
pub open spec fn spec_frame(p: MyProtocol, value: Seq<u8>) -> Seq<u8> {
    seq![spec_code(p)] + spec_u64_to_be_bytes(value.len() as u64) + value
}

/// What a well-formed buffer decodes to: the operation code and the payload
/// bytes. A buffer shorter than a header, or whose length field disagrees
/// with the bytes that follow, decodes to nothing.
pub open spec fn spec_decode(buf: Seq<u8>) -> Option<(MyProtocol, Seq<u8>)> {
    if buf.len() >= 9 && buf.len() - 9 == spec_u64_from_be_bytes(buf.subrange(1, 9)) {
        Some((spec_protocol_of(buf[0]), buf.skip(9)))
    } else {
        None
    }
}

/// A frame decodes back to the operation code and payload it was built
/// from: framing loses nothing.
pub proof fn lemma_frame_round_trip(p: MyProtocol, value: Seq<u8>)
    requires
        p != MyProtocol::UnKnow,
        value.len() + 9 <= u64::MAX,
    ensures
        spec_decode(spec_frame(p, value)) == Some((p, value)),
{
    let buf = spec_frame(p, value);
    crate::readvalue::lemma_u64_be_bytes_round_trip();
    assert(buf.subrange(1, 9) =~= spec_u64_to_be_bytes(value.len() as u64));
    lemma_protocol_code_round_trip();
    assert(buf.skip(9) =~= value);
}

/// A received frame.
pub struct RecPacket {
    pub type_code: MyProtocol,
    pub payload: u64,
    pub value: Vec<u8>,
}

impl RecPacket {
    /// Decodes one frame, strictly: the buffer must hold exactly the header
    /// and as many payload bytes as the length field names.
    pub fn decode(buf: &Vec<u8>) -> (r: Result<RecPacket, ResponseFault>)
        ensures
            match r {
                Ok(p) => {
                    &&& spec_decode(buf@) == Some((p.type_code, p.value@))
                    &&& p.payload == p.value@.len()
                    &&& p.payload == spec_u64_from_be_bytes(buf@.subrange(1, 9))
                },
                Err(f) => {
                    &&& spec_decode(buf@) is None
                    &&& f == ResponseFault::UnexpectedCode
                },
            },
    {
        if buf.len() < 9 {
            return Err(ResponseFault::UnexpectedCode);
        }
        let header: &[u8] = &buf.as_slice()[1..9];
        let payload = read_u64(header);
        proof {
            assert(buf@.subrange(1, 9) == header@);
        }
        if payload > (buf.len() - 9) as u64 || payload < (buf.len() - 9) as u64 {
            return Err(ResponseFault::UnexpectedCode);
        }
        let mut value: Vec<u8> = Vec::new();
        push_bytes_from(&mut value, buf, 9);
        proof {
            assert(value@ =~= buf@.skip(9));
        }
        Ok(RecPacket { type_code: MyProtocol::new(&buf.as_slice()[0]), payload, value })
    }
}

/// Appends every byte of `src` to `dst`.
fn push_bytes(dst: &mut Vec<u8>, src: &[u8])
    requires
        old(dst)@.len() + src@.len() <= usize::MAX,
    ensures
        final(dst)@ == old(dst)@ + src@,
{
    let mut i: usize = 0;
    while i < src.len()
        invariant
            0 <= i <= src@.len(),
            dst@ == old(dst)@ + src@.subrange(0, i as int),
            old(dst)@.len() + src@.len() <= usize::MAX,
        decreases src@.len() - i,
    {
        dst.push(src[i]);
        proof {
            assert(old(dst)@ + src@.subrange(0, i as int) + seq![src@[i as int]] =~= old(dst)@
                + src@.subrange(0, i as int + 1));
        }
        i += 1;
    }
    proof {
        assert(src@.subrange(0, src@.len() as int) =~= src@);
    }
}

/// Appends the bytes of `src` from position `from` on to `dst`.
fn push_bytes_from(dst: &mut Vec<u8>, src: &Vec<u8>, from: usize)
    requires
        from <= src@.len(),
        old(dst)@.len() + src@.len() <= usize::MAX,
    ensures
        final(dst)@ == old(dst)@ + src@.skip(from as int),
{
    let mut i: usize = from;
    while i < src.len()
        invariant
            from <= i <= src@.len(),
            dst@ == old(dst)@ + src@.subrange(from as int, i as int),
            old(dst)@.len() + src@.len() <= usize::MAX,
        decreases src@.len() - i,
    {
        dst.push(src[i]);
        proof {
            assert(old(dst)@ + src@.subrange(from as int, i as int) + seq![src@[i as int]]
                =~= old(dst)@ + src@.subrange(from as int, i as int + 1));
        }
        i += 1;
    }
    proof {
        assert(src@.subrange(from as int, src@.len() as int) =~= src@.skip(from as int));
    }
}

/// The empty payload of a request that carries no data.
pub struct Null {
    pub default: usize,
}

impl Null {
    pub fn new() -> (r: Null)
        ensures
            r.default == 0,
    {
        Null { default: 0 }
    }
}

/// The payload of an `Error` response.
pub struct ReponseErr {
    pub err: String,
}

/// What a node reports about itself on a liveness probe.
pub struct MysqlState {
    pub online: bool,
    pub role: String,
    pub master: String,
    pub sql_thread: bool,
    pub io_thread: bool,
    pub seconds_behind: usize,
    pub master_log_file: String,
    pub read_master_log_pos: usize,
    pub exec_master_log_pos: usize,
    pub read_only: bool,
    pub version: String,
    pub executed_gtid_set: String,
    pub innodb_flush_log_at_trx_commit: usize,
    pub sync_binlog: usize,
    pub server_id: usize,
    pub event_scheduler: String,
    pub sql_error: String,
}

impl MysqlState {
    pub fn new() -> (r: MysqlState)
        ensures
            !r.online,
            r.role@ == Seq::<char>::empty(),
            r.master@ == Seq::<char>::empty(),
            !r.sql_thread,
            !r.io_thread,
            r.seconds_behind == 0,
            r.master_log_file@ == Seq::<char>::empty(),
            r.read_master_log_pos == 0,
            r.exec_master_log_pos == 0,
            !r.read_only,
            r.version@ == Seq::<char>::empty(),
            r.executed_gtid_set@ == Seq::<char>::empty(),
            r.innodb_flush_log_at_trx_commit == 0,
            r.sync_binlog == 0,
            r.server_id == 0,
            r.event_scheduler@ == Seq::<char>::empty(),
            r.sql_error@ == Seq::<char>::empty(),
    {
        MysqlState {
            online: false,
            role: String::new(),
            master: String::new(),
            sql_thread: false,
            io_thread: false,
            seconds_behind: 0,
            master_log_file: String::new(),
            read_master_log_pos: 0,
            exec_master_log_pos: 0,
            read_only: false,
            version: String::new(),
            executed_gtid_set: String::new(),
            innodb_flush_log_at_trx_commit: 0,
            sync_binlog: 0,
            server_id: 0,
            event_scheduler: String::new(),
            sql_error: String::new(),
        }
    }
}

/// The corroboration request sent to each peer about a suspected host.
#[derive(Debug)]
pub struct DownNodeCheck {
    pub host: String,
    pub dbport: usize,
}

impl DownNodeCheck {
    pub fn new(host: String, dbport: usize) -> (r: DownNodeCheck)
        ensures
            r.host == host,
            r.dbport == dbport,
    {
        DownNodeCheck { host, dbport }
    }
}

/// One peer's verdict on a suspected host: whether its monitoring agent
/// answered, and whether its database answered.
pub struct DownNodeCheckStatus {
    pub host: String,
    pub client_status: bool,
    pub db_status: bool,
}

impl DownNodeCheckStatus {
    pub fn new() -> (r: DownNodeCheckStatus)
        ensures
            r.host@ == Seq::<char>::empty(),
            !r.client_status,
            !r.db_status,
    {
        DownNodeCheckStatus { host: String::new(), client_status: false, db_status: false }
    }
}

/// A replica's replication position: the log it reads and how far it has
/// fetched and applied.
#[derive(Debug, Clone)]
pub struct ReplicationState {
    pub log_name: String,
    pub read_log_pos: usize,
    pub exec_log_pos: usize,
}

/// Where a newly promoted primary starts writing.
pub struct SetMasterStatus {
    pub log_name: String,
    pub log_pos: String,
    pub gtid: String,
}

/// Asks a deposed primary for the log it holds beyond this position.
pub struct SyncBinlogInfo {
    pub binlog: String,
    pub position: usize,
}

/// A raw log segment pulled from a deposed primary.
pub struct BinlogValue {
    pub value: Vec<u8>,
}

/// The repoint command: host and port of the new primary, and its
/// transaction-id set for position-independent resynchronization.
pub struct ChangeMasterInfo {
    pub master_host: String,
    pub master_port: usize,
    pub gtid_set: String,
}

impl ChangeMasterInfo {
    /// Builds the repoint command from a `host:port` identity.
    pub fn new(host: String, port: usize, gtid_set: String) -> (r: ChangeMasterInfo)
        ensures
            r.master_host@ == spec_prefix_until(host@, ':'),
            r.master_port == port,
            r.gtid_set == gtid_set,
    {
        let master_host = prefix_until(host.as_str(), ':');
        ChangeMasterInfo { master_host, master_port: port, gtid_set }
    }
}

/// The recovery coordinates a returning node needs to resynchronize: where
/// the new primary starts, and what the deposed node had fetched.
#[derive(Debug)]
pub struct RecoveryInfo {
    pub binlog: String,
    pub position: usize,
    pub gtid: String,
    pub masterhost: String,
    pub masterport: usize,
    pub read_binlog: String,
    pub read_position: usize,
}

impl RecoveryInfo {
    /// Combines the coordinates fetched from the elected node with that
    /// node's identity and last replication position.
    pub fn new(node_info: &SlaveInfo, info: &GetRecoveryInfo) -> (r: RecoveryInfo)
        ensures
            r.binlog == info.binlog,
            r.position == info.position,
            r.gtid == info.gtid,
            r.masterhost@ == spec_prefix_until(node_info.host@, ':'),
            r.masterport == node_info.dbport,
            r.read_binlog == node_info.slave_info.log_name,
            r.read_position == node_info.slave_info.read_log_pos,
    {
        RecoveryInfo {
            binlog: info.binlog.clone(),
            position: info.position,
            gtid: info.gtid.clone(),
            masterhost: prefix_until(node_info.host.as_str(), ':'),
            masterport: node_info.dbport,
            read_binlog: node_info.slave_info.log_name.clone(),
            read_position: node_info.slave_info.read_log_pos,
        }
    }
}

/// The starting coordinates reported by a newly promoted primary.
pub struct GetRecoveryInfo {
    pub binlog: String,
    pub position: usize,
    pub gtid: String,
}

/// One divergent transaction: the statements a deposed primary had applied,
/// and the statements that roll them back.
pub struct TractionValue {
    pub cur_sql: Vec<String>,
    pub rollback_sql: Vec<String>,
}

/// Every divergent transaction a resynchronized node reported, and whether
/// it rolled them back or wants them appended.
pub struct RowsSql {
    pub sqls: Vec<TractionValue>,
    pub error: String,
    pub etype: String,
}

/// A node's registration record joined with its current role, as the manual
/// switchover reads the cluster.
pub struct HostInfoValueGetAllState {
    pub host: String,
    pub dbport: usize,
    pub rtype: String,
    pub online: bool,
    pub maintain: bool,
    pub role: String,
    pub cluster_name: String,
}

impl HostInfoValueGetAllState {
    pub fn new(host_info: &HostInfoValue, role: String) -> (r: HostInfoValueGetAllState)
        ensures
            r.host == host_info.host,
            r.dbport == host_info.dbport,
            r.rtype == host_info.rtype,
            r.online == host_info.online,
            r.maintain == host_info.maintain,
            r.cluster_name == host_info.cluster_name,
            r.role == role,
    {
        HostInfoValueGetAllState {
            host: host_info.host.clone(),
            dbport: host_info.dbport,
            rtype: host_info.rtype.clone(),
            online: host_info.online,
            maintain: host_info.maintain,
            cluster_name: host_info.cluster_name.clone(),
            role,
        }
    }
}

/// Statements for the primary to replay.
pub struct CommandSql {
    pub sqls: Vec<String>,
}

/// One monitoring sample of a node: cumulative server counters, a few
/// gauges, and the moment it was taken.
#[derive(Debug, Clone, Copy)]
pub struct MysqlMonitorStatus {
    pub com_insert: usize,
    pub com_update: usize,
    pub com_delete: usize,
    pub com_select: usize,
    pub questions: usize,
    pub innodb_row_lock_current_waits: usize,
    pub innodb_row_lock_time: usize,
    pub created_tmp_disk_tables: usize,
    pub created_tmp_tables: usize,
    pub innodb_buffer_pool_reads: usize,
    pub innodb_buffer_pool_read_requests: usize,
    pub handler_read_first: usize,
    pub handler_read_key: usize,
    pub handler_read_next: usize,
    pub handler_read_prev: usize,
    pub handler_read_rnd: usize,
    pub handler_read_rnd_next: usize,
    pub innodb_os_log_pending_fsyncs: usize,
    pub innodb_os_log_pending_writes: usize,
    pub innodb_log_waits: usize,
    pub threads_connected: usize,
    pub threads_running: usize,
    pub bytes_sent: usize,
    pub bytes_received: usize,
    pub slow_queries: usize,
    pub time: i64,
}

} // verus!
