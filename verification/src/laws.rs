//! What holds of the library as a whole.

use vstd::prelude::*;

use crate::config::{Config, OWNER_ONLY};
use crate::datagram::DatagramBuilder;
use crate::error::{decimal, digit_char, lemma_decimal_len, MineCode};
use crate::path::{pushed, spec_socket_path};
use crate::peer::{admitted, Peer};
use crate::plan::SocketStep;
use crate::stream::StreamBuilder;

verus! {

/// The value of a string of decimal digits.
pub open spec fn digits_value(s: Seq<char>) -> nat
    decreases s.len(),
{
    if s.len() == 0 {
        0
    } else {
        digits_value(s.drop_last()) * 10 + ((s.last() as int - '0' as int) as nat)
    }
}

/// `c` is one of `0` to `9`.
pub open spec fn is_digit(c: char) -> bool {
    '0' <= c && c <= '9'
}

proof fn lemma_digit_char(d: nat)
    requires
        d < 10,
    ensures
        is_digit(digit_char(d)),
        digit_char(d) as int - '0' as int == d,
{
}

/// A number renders in decimal as digits only, with no leading zero unless
/// it is zero, and those digits read back as the number.
pub proof fn lemma_decimal_reads_back(n: nat)
    ensures
        forall|i: int| 0 <= i < decimal(n).len() ==> is_digit(#[trigger] decimal(n)[i]),
        decimal(n).len() > 1 ==> decimal(n)[0] != '0',
        digits_value(decimal(n)) == n,
    decreases n,
{
    if n < 10 {
        lemma_digit_char(n);
        assert(decimal(n).drop_last() =~= Seq::<char>::empty());
        assert(digits_value(Seq::<char>::empty()) == 0);
        assert(digits_value(decimal(n)) == digits_value(decimal(n).drop_last()) * 10 + n);
    } else {
        lemma_decimal_reads_back(n / 10);
        lemma_digit_char(n % 10);
        let d = decimal(n);
        assert(d.drop_last() =~= decimal(n / 10));
        assert forall|i: int| 0 <= i < d.len() implies is_digit(#[trigger] d[i]) by {
            if i < d.len() - 1 {
                assert(d[i] == decimal(n / 10)[i]);
            }
        }
        if decimal(n / 10).len() == 1 {
            assert(n / 10 < 10) by {
                if n / 10 >= 10 {
                    lemma_decimal_len(n / 10);
                }
            }
            assert(n / 10 != 0);
            assert(decimal(n / 10)[0] == digit_char(n / 10));
        }
        assert(d[0] == decimal(n / 10)[0]);
        assert(d.last() == digit_char(n % 10));
        assert(digits_value(d) == digits_value(decimal(n / 10)) * 10 + (n % 10));
        assert(n == (n / 10) * 10 + n % 10);
    }
}

/// Every refusal has its own numeric code: two codes with the same number
/// are the same refusal.
pub proof fn lemma_codes_are_distinct(a: MineCode, b: MineCode)
    requires
        a.spec_id() == b.spec_id(),
    ensures
        (a is RefusedSymlink) == (b is RefusedSymlink),
        (a is NotASocket) == (b is NotASocket),
        (a is NonblockingWithTimeout) == (b is NonblockingWithTimeout),
        (a is PeerRefused) == (b is PeerRefused),
        (a is ShortDatagram) == (b is ShortDatagram),
{
}

/// The default config is accepted: blocking, no timeouts.
pub proof fn lemma_default_config_is_accepted()
    ensures
        !Config::spec_default().conflicting(),
        Config::spec_default().socket_mode == Some(OWNER_ONLY),
{
}

/// A blocking config is accepted whatever its timeouts, and a non-blocking
/// one exactly when it has no timeout.
pub proof fn lemma_conflict_is_nonblocking_with_timeout(cfg: Config)
    ensures
        !cfg.nonblocking ==> !cfg.conflicting(),
        cfg.nonblocking ==> (cfg.conflicting() <==> (cfg.read_timeout is Some || cfg.write_timeout is Some)),
{
}

/// A bind creates the parent directory, then removes a stale socket (and
/// only a socket), then binds; the socket file's mode is set after the bind,
/// exactly when the config names one, and to that mode. This holds of stream
/// listeners and datagram sockets alike.
pub proof fn lemma_bind_prepares_the_path_then_binds(cfg: Config)
    ensures
        StreamBuilder::spec_bind_plan(cfg)[0] == SocketStep::CreateParentDir,
        StreamBuilder::spec_bind_plan(cfg)[1] == SocketStep::UnlinkIfSocket,
        StreamBuilder::spec_bind_plan(cfg)[2] == SocketStep::Bind,
        DatagramBuilder::spec_bind_plan(cfg)[0] == SocketStep::CreateParentDir,
        DatagramBuilder::spec_bind_plan(cfg)[1] == SocketStep::UnlinkIfSocket,
        DatagramBuilder::spec_bind_plan(cfg)[2] == SocketStep::Bind,
        forall|m: u32|
            StreamBuilder::spec_bind_plan(cfg).contains(SocketStep::SetMode(m)) <==> cfg.socket_mode == Some(m),
        forall|m: u32|
            DatagramBuilder::spec_bind_plan(cfg).contains(SocketStep::SetMode(m)) <==> cfg.socket_mode == Some(m),
{
    let s = StreamBuilder::spec_bind_plan(cfg);
    let d = DatagramBuilder::spec_bind_plan(cfg);
    assert forall|m: u32| s.contains(SocketStep::SetMode(m)) <==> cfg.socket_mode == Some(m) by {
        if cfg.socket_mode == Some(m) {
            assert(s[s.len() - 1] == SocketStep::SetMode(m));
        }
        if s.contains(SocketStep::SetMode(m)) {
            let i = choose|i: int| 0 <= i < s.len() && s[i] == SocketStep::SetMode(m);
            assert(i >= 4);
        }
    }
    assert forall|m: u32| d.contains(SocketStep::SetMode(m)) <==> cfg.socket_mode == Some(m) by {
        if cfg.socket_mode == Some(m) {
            assert(d[d.len() - 1] == SocketStep::SetMode(m));
        }
        if d.contains(SocketStep::SetMode(m)) {
            let i = choose|i: int| 0 <= i < d.len() && d[i] == SocketStep::SetMode(m);
            assert(i >= 6);
        }
    }
}

/// With the default config, a bound socket file is owner-only.
pub proof fn lemma_default_bind_is_owner_only()
    ensures
        StreamBuilder::spec_bind_plan(Config::spec_default()).contains(SocketStep::SetMode(OWNER_ONLY)),
        DatagramBuilder::spec_bind_plan(Config::spec_default()).contains(SocketStep::SetMode(OWNER_ONLY)),
{
    lemma_bind_prepares_the_path_then_binds(Config::spec_default());
}

/// Every stream a connect opens gets the config's blocking mode and both of
/// its timeouts, and so does every datagram socket.
pub proof fn lemma_connect_applies_the_config(cfg: Config)
    ensures
        StreamBuilder::spec_connect_plan(cfg)[0] == SocketStep::Connect,
        StreamBuilder::spec_connect_plan(cfg).contains(SocketStep::SetNonblocking(cfg.nonblocking)),
        StreamBuilder::spec_connect_plan(cfg).contains(SocketStep::SetReadTimeout(cfg.read_timeout)),
        StreamBuilder::spec_connect_plan(cfg).contains(SocketStep::SetWriteTimeout(cfg.write_timeout)),
        DatagramBuilder::spec_connect_plan(cfg).contains(SocketStep::SetNonblocking(cfg.nonblocking)),
        DatagramBuilder::spec_connect_plan(cfg).contains(SocketStep::SetReadTimeout(cfg.read_timeout)),
        DatagramBuilder::spec_connect_plan(cfg).contains(SocketStep::SetWriteTimeout(cfg.write_timeout)),
        DatagramBuilder::spec_bind_plan(cfg).contains(SocketStep::SetReadTimeout(cfg.read_timeout)),
        DatagramBuilder::spec_bind_plan(cfg).contains(SocketStep::SetWriteTimeout(cfg.write_timeout)),
{
    let s = StreamBuilder::spec_connect_plan(cfg);
    let d = DatagramBuilder::spec_connect_plan(cfg);
    let b = DatagramBuilder::spec_bind_plan(cfg);
    assert(s[1] == SocketStep::SetNonblocking(cfg.nonblocking));
    assert(s[2] == SocketStep::SetReadTimeout(cfg.read_timeout));
    assert(s[3] == SocketStep::SetWriteTimeout(cfg.write_timeout));
    assert(d[2] == SocketStep::SetNonblocking(cfg.nonblocking));
    assert(d[3] == SocketStep::SetReadTimeout(cfg.read_timeout));
    assert(d[4] == SocketStep::SetWriteTimeout(cfg.write_timeout));
    assert(b[4] == SocketStep::SetReadTimeout(cfg.read_timeout));
    assert(b[5] == SocketStep::SetWriteTimeout(cfg.write_timeout));
}

/// An empty policy admits no one.
pub proof fn lemma_empty_policy_admits_no_one(peer: Peer)
    ensures
        !admitted(Seq::empty(), Seq::empty(), peer),
{
}

/// Adding a uid or a gid to a policy only widens it: whoever was admitted
/// still is, and the added id is admitted too.
pub proof fn lemma_also_widens(uids: Seq<u32>, gids: Seq<u32>, id: u32, peer: Peer)
    ensures
        admitted(uids, gids, peer) ==> admitted(uids.push(id), gids, peer),
        admitted(uids, gids, peer) ==> admitted(uids, gids.push(id), peer),
        peer.uid == id ==> admitted(uids.push(id), gids, peer),
        peer.gid == id ==> admitted(uids, gids.push(id), peer),
{
    if admitted(uids, gids, peer) {
        if uids.contains(peer.uid) {
            let i = choose|i: int| 0 <= i < uids.len() && uids[i] == peer.uid;
            assert(uids.push(id)[i] == peer.uid);
        }
        if gids.contains(peer.gid) {
            let i = choose|i: int| 0 <= i < gids.len() && gids[i] == peer.gid;
            assert(gids.push(id)[i] == peer.gid);
        }
    }
    assert(uids.push(id)[uids.len() as int] == id);
    assert(gids.push(id)[gids.len() as int] == id);
}

/// A single-uid policy admits exactly the peers with that uid, and a
/// single-gid policy exactly the peers with that gid.
pub proof fn lemma_single_id_policies(id: u32, peer: Peer)
    ensures
        admitted(seq![id], Seq::empty(), peer) <==> peer.uid == id,
        admitted(Seq::empty(), seq![id], peer) <==> peer.gid == id,
{
    assert(seq![id][0] == id);
}

/// With a relative app directory and a relative name, the socket path is
/// the runtime directory, the app directory, and `<name>.sock`, so it ends
/// in `<app>/<name>.sock`.
pub proof fn lemma_socket_path_shape(runtime_dir: Seq<char>, app: Seq<char>, name: Seq<char>)
    requires
        app.len() > 0,
        app[0] != '/',
        app.last() != '/',
        name.len() == 0 || name[0] != '/',
    ensures
        spec_socket_path(runtime_dir, app, name) == pushed(runtime_dir, app) + seq!['/'] + name + ".sock"@,
        spec_socket_path(runtime_dir, app, name).len() >= app.len() + 1 + name.len() + ".sock"@.len(),
        spec_socket_path(runtime_dir, app, name).subrange(
            spec_socket_path(runtime_dir, app, name).len() - (app.len() + 1 + name.len() + ".sock"@.len()),
            spec_socket_path(runtime_dir, app, name).len() as int,
        ) == app + seq!['/'] + name + ".sock"@,
{
    let dir = pushed(runtime_dir, app);
    assert(dir.len() >= app.len());
    assert(dir.subrange(dir.len() - app.len(), dir.len() as int) =~= app);
    assert(dir.last() == app.last());
    let file = name + ".sock"@;
    reveal_strlit(".sock");
    assert(file[0] != '/');
    let p = spec_socket_path(runtime_dir, app, name);
    assert(p =~= dir + seq!['/'] + name + ".sock"@);
    let k = app.len() + 1 + name.len() + ".sock"@.len();
    assert(p.subrange(p.len() - k, p.len() as int) =~= app + seq!['/'] + name + ".sock"@);
}


/// A step that touches the socket path or its file rather than an open
/// socket.
pub open spec fn is_path_step(step: SocketStep) -> bool {
    step is CreateParentDir || step is UnlinkIfSocket || step is Bind || step is SetMode
}

/// A stream listener is bound with exactly the config's blocking mode: the
/// bind sets it to `cfg.nonblocking` and never to the other value, sets the
/// mode once, binds once, and touches no timeout (a listener has none).
pub proof fn lemma_stream_bind_sets_the_configured_blocking_mode(cfg: Config)
    ensures
        StreamBuilder::spec_bind_plan(cfg).contains(SocketStep::SetNonblocking(cfg.nonblocking)),
        forall|b: bool|
            StreamBuilder::spec_bind_plan(cfg).contains(SocketStep::SetNonblocking(b)) ==> b == cfg.nonblocking,
        forall|t| !StreamBuilder::spec_bind_plan(cfg).contains(SocketStep::SetReadTimeout(t)),
        forall|t| !StreamBuilder::spec_bind_plan(cfg).contains(SocketStep::SetWriteTimeout(t)),
        !StreamBuilder::spec_bind_plan(cfg).contains(SocketStep::Connect),
        !StreamBuilder::spec_bind_plan(cfg).contains(SocketStep::Unbound),
        forall|i: int|
            0 <= i < StreamBuilder::spec_bind_plan(cfg).len() && StreamBuilder::spec_bind_plan(cfg)[i]
                == SocketStep::Bind ==> i == 2,
{
    let s = StreamBuilder::spec_bind_plan(cfg);
    assert(s[3] == SocketStep::SetNonblocking(cfg.nonblocking));
    assert forall|i: int| 0 <= i < s.len() implies {
        &&& (s[i] is SetNonblocking ==> s[i] == SocketStep::SetNonblocking(cfg.nonblocking))
        &&& !(s[i] is SetReadTimeout) && !(s[i] is SetWriteTimeout)
        &&& !(s[i] is Connect) && !(s[i] is Unbound)
        &&& (s[i] is Bind ==> i == 2)
    } by {
        assert(0 <= i < 4 || (cfg.socket_mode is Some && i == 4));
        if i >= 4 {
            assert(s[i] == SocketStep::SetMode(cfg.socket_mode->0));
        }
    }
}

/// Every datagram socket a bind opens gets exactly the config's blocking
/// mode and timeouts, and a bound-then-connected one too.
pub proof fn lemma_datagram_bind_applies_the_config(cfg: Config)
    ensures
        DatagramBuilder::spec_bind_plan(cfg).contains(SocketStep::SetNonblocking(cfg.nonblocking)),
        forall|b: bool|
            DatagramBuilder::spec_bind_plan(cfg).contains(SocketStep::SetNonblocking(b)) ==> b == cfg.nonblocking,
        forall|t|
            DatagramBuilder::spec_bind_plan(cfg).contains(SocketStep::SetReadTimeout(t)) <==> t == cfg.read_timeout,
        forall|t|
            DatagramBuilder::spec_bind_plan(cfg).contains(SocketStep::SetWriteTimeout(t)) <==> t == cfg.write_timeout,
        !DatagramBuilder::spec_bind_plan(cfg).contains(SocketStep::Connect),
        DatagramBuilder::spec_connect_bound_plan(cfg).contains(SocketStep::SetNonblocking(cfg.nonblocking)),
        forall|b: bool|
            DatagramBuilder::spec_connect_bound_plan(cfg).contains(SocketStep::SetNonblocking(b))
                ==> b == cfg.nonblocking,
        DatagramBuilder::spec_connect_bound_plan(cfg).last() == SocketStep::Connect,
{
    let s = DatagramBuilder::spec_bind_plan(cfg);
    let c = DatagramBuilder::spec_connect_bound_plan(cfg);
    assert(s[3] == SocketStep::SetNonblocking(cfg.nonblocking));
    assert(s[4] == SocketStep::SetReadTimeout(cfg.read_timeout));
    assert(s[5] == SocketStep::SetWriteTimeout(cfg.write_timeout));
    assert forall|i: int| 0 <= i < s.len() implies {
        &&& (s[i] is SetNonblocking ==> s[i] == SocketStep::SetNonblocking(cfg.nonblocking))
        &&& (s[i] is SetReadTimeout ==> s[i] == SocketStep::SetReadTimeout(cfg.read_timeout))
        &&& (s[i] is SetWriteTimeout ==> s[i] == SocketStep::SetWriteTimeout(cfg.write_timeout))
        &&& !(s[i] is Connect)
    } by {
        assert(0 <= i < 6 || (cfg.socket_mode is Some && i == 6));
        if i >= 6 {
            assert(s[i] == SocketStep::SetMode(cfg.socket_mode->0));
        }
    }
    assert(c[3] == SocketStep::SetNonblocking(cfg.nonblocking));
    assert forall|i: int| 0 <= i < c.len() implies
        (c[i] is SetNonblocking ==> c[i] == SocketStep::SetNonblocking(cfg.nonblocking)) by {
        if i < s.len() {
            assert(c[i] == s[i]);
        }
    }
}

/// A connect only connects and sets the stream's options: a stream connect
/// is the connect followed by the blocking mode and the two timeouts, and a
/// datagram connect opens an unbound socket first. Neither touches a path or
/// a socket file.
pub proof fn lemma_connect_only_connects(cfg: Config)
    ensures
        StreamBuilder::spec_connect_plan(cfg).len() == 4,
        StreamBuilder::spec_connect_plan(cfg)[0] == SocketStep::Connect,
        StreamBuilder::spec_connect_plan(cfg)[1] == SocketStep::SetNonblocking(cfg.nonblocking),
        StreamBuilder::spec_connect_plan(cfg)[2] == SocketStep::SetReadTimeout(cfg.read_timeout),
        StreamBuilder::spec_connect_plan(cfg)[3] == SocketStep::SetWriteTimeout(cfg.write_timeout),
        DatagramBuilder::spec_connect_plan(cfg).len() == 5,
        DatagramBuilder::spec_connect_plan(cfg)[0] == SocketStep::Unbound,
        DatagramBuilder::spec_connect_plan(cfg)[1] == SocketStep::Connect,
        DatagramBuilder::spec_connect_plan(cfg)[2] == SocketStep::SetNonblocking(cfg.nonblocking),
        DatagramBuilder::spec_connect_plan(cfg)[3] == SocketStep::SetReadTimeout(cfg.read_timeout),
        DatagramBuilder::spec_connect_plan(cfg)[4] == SocketStep::SetWriteTimeout(cfg.write_timeout),
        forall|i: int|
            0 <= i < StreamBuilder::spec_connect_plan(cfg).len() ==> !is_path_step(
                #[trigger] StreamBuilder::spec_connect_plan(cfg)[i],
            ),
        forall|i: int|
            0 <= i < DatagramBuilder::spec_connect_plan(cfg).len() ==> !is_path_step(
                #[trigger] DatagramBuilder::spec_connect_plan(cfg)[i],
            ),
{
    let s = StreamBuilder::spec_connect_plan(cfg);
    let d = DatagramBuilder::spec_connect_plan(cfg);
    assert(s =~= seq![
        SocketStep::Connect,
        SocketStep::SetNonblocking(cfg.nonblocking),
        SocketStep::SetReadTimeout(cfg.read_timeout),
        SocketStep::SetWriteTimeout(cfg.write_timeout),
    ]);
    assert(d =~= seq![
        SocketStep::Unbound,
        SocketStep::Connect,
        SocketStep::SetNonblocking(cfg.nonblocking),
        SocketStep::SetReadTimeout(cfg.read_timeout),
        SocketStep::SetWriteTimeout(cfg.write_timeout),
    ]);
}

/// A peer is admitted exactly when its uid is among the policy's uids or
/// its gid is among its gids: no other id of the peer, and no id listed in
/// the other list, lets it in.
pub proof fn lemma_admission_is_by_listed_ids(uids: Seq<u32>, gids: Seq<u32>, peer: Peer)
    ensures
        admitted(uids, gids, peer) <==> (exists|i: int| 0 <= i < uids.len() && uids[i] == peer.uid)
            || (exists|j: int| 0 <= j < gids.len() && gids[j] == peer.gid),
        (forall|i: int| 0 <= i < uids.len() ==> uids[i] != peer.uid)
            && (forall|j: int| 0 <= j < gids.len() ==> gids[j] != peer.gid) ==> !admitted(uids, gids, peer),
{
}

} // verus!
