use vstd::prelude::*;
use crate::error::TunError;
use crate::frame::{
    append_bytes, copy_prefix, flatten, gather, min_len, overwrite, pi_header, pi_header_for,
    scatter, PI_LEN,
};
use crate::request::{
    ifreq_for, in6_ifreq_for, link_addr_ifreq, link_addr_of, link_addr_union, name_field,
    name_fits, zeros, IfReq, In6IfReq, IFRU_SIZE,
};

verus! {

/// Darwin's `O_NONBLOCK` file status flag.
pub const O_NONBLOCK: i32 = 0x0004;

/// The kernel-assigned name of an interface is read into a buffer this wide.
pub const NAME_REPLY_LEN: usize = 64;

/// The text that `bytes` decode to when each invalid UTF-8 sequence is
/// replaced by U+FFFD.
pub uninterp spec fn utf8_lossy(bytes: Seq<u8>) -> Seq<char>;

/// Relies on `String::from_utf8_lossy`: the text depends on the bytes alone;
/// no bytes give no text, and some bytes give some text (each byte lands in a
/// character of its own or in a replacement character).
#[verifier::external_body]
fn lossy_string(bytes: &[u8]) -> (r: String)
    ensures
        r@ == utf8_lossy(bytes@),
        bytes@.len() == 0 ==> r@.len() == 0,
        bytes@.len() > 0 ==> r@.len() > 0,
{
    String::from_utf8_lossy(bytes).into_owned()
}

/// `s` holds the bytes of `raw` before its first zero byte (all of `raw`
/// where it holds none).
pub open spec fn is_c_str_of(s: Seq<u8>, raw: Seq<u8>) -> bool {
    &&& s.len() <= raw.len()
    &&& s == raw.subrange(0, s.len() as int)
    &&& forall|j: int| 0 <= j < s.len() ==> s[j] != 0u8
    &&& s.len() < raw.len() ==> raw[s.len() as int] == 0u8
}

/// A layer-3 device: raw network-layer packets, optionally behind a
/// packet-information header that the handle adds and strips.
#[derive(Debug)]
pub struct Tun {
    fd: i32,
    ignore_packet_info: bool,
    open: bool,
}

/// A layer-2 device: Ethernet frames, with the name it was opened under.
#[derive(Debug)]
pub struct Tap {
    fd: i32,
    name: Vec<u8>,
    open: bool,
}

impl Tun {
    /// The descriptor is a live one.
    #[verifier::type_invariant]
    spec fn inv(&self) -> bool {
        self.fd >= 0
    }
}

impl Tap {
    /// The descriptor is a live one, and the interface has a name.
    #[verifier::type_invariant]
    spec fn inv(&self) -> bool {
        self.fd >= 0 && self.name@.len() > 0
    }
}

/// One handle over either kind of virtual interface. The kind is fixed when
/// the handle is made; the native descriptor is handed back for release once.
#[derive(Debug)]
pub enum TunTap {
    Tun(Tun),
    Tap(Tap),
}

impl TunTap {
    /// Whether the handle is a layer-3 device.
    pub closed spec fn spec_is_tun(&self) -> bool {
        self is Tun
    }

    /// The native descriptor.
    pub closed spec fn spec_fd(&self) -> i32 {
        match self {
            TunTap::Tun(t) => t.fd,
            TunTap::Tap(t) => t.fd,
        }
    }

    /// Whether the descriptor has not been released yet.
    pub closed spec fn spec_is_open(&self) -> bool {
        match self {
            TunTap::Tun(t) => t.open,
            TunTap::Tap(t) => t.open,
        }
    }

    /// Whether the handle keeps the packet-information header away from its
    /// caller (always so for a layer-2 device, which has none).
    pub closed spec fn spec_ignore_packet_info(&self) -> bool {
        match self {
            TunTap::Tun(t) => t.ignore_packet_info,
            TunTap::Tap(_) => true,
        }
    }

    /// The name a layer-2 device was opened under.
    pub closed spec fn spec_tap_name(&self) -> Seq<u8> {
        match self {
            TunTap::Tun(_) => Seq::empty(),
            TunTap::Tap(t) => t.name@,
        }
    }

    /// Whether the handle adds the header on send and strips it on receive.
    pub open spec fn adds_header(&self) -> bool {
        self.spec_is_tun() && self.spec_ignore_packet_info()
    }

    /// The bytes handed to the kernel for the frame `payload`.
    pub open spec fn wire_frame(&self, payload: Seq<u8>) -> Seq<u8> {
        if self.adds_header() {
            pi_header(payload) + payload
        } else {
            payload
        }
    }

    /// The frame that the caller sees for the bytes `wire` read from the
    /// kernel.
    pub open spec fn payload_of(&self, wire: Seq<u8>) -> Seq<u8> {
        if self.adds_header() {
            if wire.len() <= PI_LEN {
                Seq::empty()
            } else {
                wire.subrange(PI_LEN as int, wire.len() as int)
            }
        } else {
            wire
        }
    }

    /// `b` is the interface's name: the kernel's reply up to its first zero
    /// byte for a layer-3 device, the name opened under for a layer-2 one.
    pub open spec fn spec_name_is(&self, kernel_reply: Seq<u8>, b: Seq<u8>) -> bool {
        if self.spec_is_tun() {
            is_c_str_of(b, kernel_reply)
        } else {
            b == self.spec_tap_name()
        }
    }

    /// The handle has a name of at least one byte: a layer-2 device always,
    /// a layer-3 device when the kernel's reply does not begin with a zero.
    pub open spec fn names_itself(&self, kernel_reply: Seq<u8>) -> bool {
        !self.spec_is_tun() || (kernel_reply.len() > 0 && kernel_reply[0] != 0u8)
    }

    /// The link-layer address read from the kernel's reply `reply`.
    pub open spec fn mac_outcome(&self, reply: IfReq) -> Result<Seq<u8>, TunError> {
        if self.spec_is_tun() {
            Err(TunError::Unsupported)
        } else if !self.spec_is_open() {
            Err(TunError::Closed)
        } else {
            Ok(reply.link_addr())
        }
    }

    /// A layer-2 device carries no packet-information header: it always
    /// reports that the header is kept away from its caller.
    pub proof fn lemma_tap_ignores_packet_info(&self)
        ensures
            !self.spec_is_tun() ==> self.spec_ignore_packet_info(),
    {
    }

    /// The outcome of releasing the handle in this state.
    pub open spec fn release_outcome(&self) -> Result<i32, TunError> {
        if self.spec_is_open() {
            Ok(self.spec_fd())
        } else {
            Err(TunError::Closed)
        }
    }

    /// A layer-3 handle over the open descriptor `fd`; it adds and strips the
    /// packet-information header until told otherwise.
    pub fn new_tun(fd: i32) -> (r: TunTap)
        requires
            fd >= 0,
        ensures
            r.spec_is_tun(),
            r.spec_fd() == fd,
            r.spec_is_open(),
            r.spec_ignore_packet_info(),
    {
        TunTap::Tun(Tun { fd, ignore_packet_info: true, open: true })
    }

    /// A layer-2 handle over the open descriptor `fd`, for the interface
    /// called `name`.
    pub fn new_tap(fd: i32, name: Vec<u8>) -> (r: TunTap)
        requires
            fd >= 0,
            name@.len() > 0,
        ensures
            !r.spec_is_tun(),
            r.spec_fd() == fd,
            r.spec_is_open(),
            r.spec_tap_name() == name@,
    {
        TunTap::Tap(Tap { fd, name, open: true })
    }

    /// Whether the handle is a layer-3 device.
    pub fn is_tun(&self) -> (r: bool)
        ensures
            r == self.spec_is_tun(),
    {
        match self {
            TunTap::Tun(_) => true,
            TunTap::Tap(_) => false,
        }
    }

    /// Whether the descriptor has not been released yet.
    pub fn is_open(&self) -> (r: bool)
        ensures
            r == self.spec_is_open(),
    {
        match self {
            TunTap::Tun(t) => t.open,
            TunTap::Tap(t) => t.open,
        }
    }

    /// The bytes of the interface's name. A layer-3 device's name is the one
    /// the kernel assigned, read from `kernel_reply` (the reply to the name
    /// query, up to its first zero byte); a layer-2 device's is the one it
    /// was opened under.
    pub fn name_bytes(&self, kernel_reply: &[u8]) -> (r: Result<Vec<u8>, TunError>)
        ensures
            !self.spec_is_open() <==> r == Err::<Vec<u8>, TunError>(TunError::Closed),
            r is Ok || r == Err::<Vec<u8>, TunError>(TunError::Closed),
            r is Ok && self.spec_is_tun() ==> is_c_str_of(r.unwrap()@, kernel_reply@),
            r is Ok && !self.spec_is_tun() ==> r.unwrap()@ == self.spec_tap_name(),
            r is Ok && self.names_itself(kernel_reply@) ==> r.unwrap()@.len() > 0,
    {
        match self {
            TunTap::Tun(t) => {
                if !t.open {
                    return Err(TunError::Closed);
                }
                let mut k: usize = 0;
                while k < kernel_reply.len() && kernel_reply[k] != 0
                    invariant
                        k <= kernel_reply@.len(),
                        forall|j: int| 0 <= j < k ==> kernel_reply@[j] != 0u8,
                    decreases kernel_reply@.len() - k,
                {
                    k = k + 1;
                }
                let mut s: Vec<u8> = Vec::new();
                let mut i: usize = 0;
                while i < k
                    invariant
                        k <= kernel_reply@.len(),
                        i <= k,
                        s@ == kernel_reply@.subrange(0, i as int),
                    decreases k - i,
                {
                    s.push(kernel_reply[i]);
                    i = i + 1;
                    assert(s@ =~= kernel_reply@.subrange(0, i as int));
                }
                Ok(s)
            },
            TunTap::Tap(t) => {
                proof {
                    use_type_invariant(t);
                }
                if !t.open {
                    return Err(TunError::Closed);
                }
                let mut s: Vec<u8> = Vec::new();
                append_bytes(&mut s, t.name.as_slice());
                Ok(s)
            },
        }
    }

    /// The interface's name as text (see `name_bytes`).
    pub fn name(&self, kernel_reply: &[u8]) -> (r: Result<String, TunError>)
        ensures
            !self.spec_is_open() <==> r == Err::<String, TunError>(TunError::Closed),
            r is Ok || r == Err::<String, TunError>(TunError::Closed),
            r is Ok ==> exists|b: Seq<u8>|
                #![trigger utf8_lossy(b)]
                r.unwrap()@ == utf8_lossy(b) && (if self.spec_is_tun() {
                    is_c_str_of(b, kernel_reply@)
                } else {
                    b == self.spec_tap_name()
                }),
            r is Ok && self.names_itself(kernel_reply@) ==> r.unwrap()@.len() > 0,
    {
        let bytes = self.name_bytes(kernel_reply)?;
        let s = lossy_string(bytes.as_slice());
        Ok(s)
    }

    /// A zeroed `struct ifreq` naming the interface, for a configuration
    /// request; a name too long for the field is refused before any copy.
    pub fn request(&self, kernel_reply: &[u8]) -> (r: Result<IfReq, TunError>)
        ensures
            !self.spec_is_open() ==> r == Err::<IfReq, TunError>(TunError::Closed),
            self.spec_is_open() ==> exists|b: Seq<u8>|
                #![trigger name_field(b)]
                self.spec_name_is(kernel_reply@, b) && (if name_fits(b) {
                    r is Ok && r.unwrap().wf() && r.unwrap().name@ == name_field(b)
                        && r.unwrap().ifru@ == zeros(IFRU_SIZE as nat)
                } else {
                    r == Err::<IfReq, TunError>(TunError::InvalidConfiguration)
                }),
    {
        let bytes = self.name_bytes(kernel_reply)?;
        proof {
            let _ = name_field(bytes@);
        }
        ifreq_for(bytes.as_slice())
    }

    /// A zeroed `struct in6_ifreq` naming the interface, with duplicate
    /// address detection turned off; a name too long is refused.
    pub fn request_v6(&self, kernel_reply: &[u8]) -> (r: Result<In6IfReq, TunError>)
        ensures
            !self.spec_is_open() ==> r == Err::<In6IfReq, TunError>(TunError::Closed),
            self.spec_is_open() ==> exists|b: Seq<u8>|
                #![trigger name_field(b)]
                self.spec_name_is(kernel_reply@, b) && (if name_fits(b) {
                    r is Ok && r.unwrap().wf() && r.unwrap().name@ == name_field(b)
                        && r.unwrap().flags == crate::request::IN6_IFF_NODAD
                } else {
                    r == Err::<In6IfReq, TunError>(TunError::InvalidConfiguration)
                }),
    {
        let bytes = self.name_bytes(kernel_reply)?;
        proof {
            let _ = name_field(bytes@);
        }
        in6_ifreq_for(bytes.as_slice())
    }

    /// The request that sets the link-layer address of a layer-2 device to
    /// `eth_addr`. A layer-3 device has no such address.
    pub fn set_mac_address(&self, eth_addr: [u8; 6]) -> (r: Result<IfReq, TunError>)
        ensures
            self.spec_is_tun() ==> r == Err::<IfReq, TunError>(TunError::Unsupported),
            !self.spec_is_tun() && !self.spec_is_open() ==> r == Err::<IfReq, TunError>(
                TunError::Closed,
            ),
            self.spec_is_open() && !self.spec_is_tun() ==> if name_fits(self.spec_tap_name()) {
                r is Ok && r.unwrap().wf() && r.unwrap().name@ == name_field(self.spec_tap_name())
                    && r.unwrap().ifru@ == link_addr_union(eth_addr@)
            } else {
                r == Err::<IfReq, TunError>(TunError::InvalidConfiguration)
            },
    {
        match self {
            TunTap::Tun(_) => Err(TunError::Unsupported),
            TunTap::Tap(t) => {
                if !t.open {
                    Err(TunError::Closed)
                } else {
                    link_addr_ifreq(t.name.as_slice(), eth_addr)
                }
            },
        }
    }

    /// The request that reads the link-layer address of a layer-2 device:
    /// the union tagged `AF_LINK` with a zeroed address.
    pub fn mac_address_request(&self) -> (r: Result<IfReq, TunError>)
        ensures
            self.spec_is_tun() ==> r == Err::<IfReq, TunError>(TunError::Unsupported),
            !self.spec_is_tun() && !self.spec_is_open() ==> r == Err::<IfReq, TunError>(
                TunError::Closed,
            ),
            self.spec_is_open() && !self.spec_is_tun() ==> if name_fits(self.spec_tap_name()) {
                r is Ok && r.unwrap().wf() && r.unwrap().name@ == name_field(self.spec_tap_name())
                    && r.unwrap().ifru@ == link_addr_union(zeros(6))
            } else {
                r == Err::<IfReq, TunError>(TunError::InvalidConfiguration)
            },
    {
        let z: [u8; 6] = [0u8; 6];
        assert(z@ =~= zeros(6));
        self.set_mac_address(z)
    }

    /// The link-layer address of a layer-2 device, read from the kernel's
    /// reply to `mac_address_request`.
    pub fn mac_address(&self, reply: &IfReq) -> (r: Result<[u8; 6], TunError>)
        requires
            reply.wf(),
        ensures
            r matches Ok(a) ==> self.mac_outcome(*reply) == Ok::<Seq<u8>, TunError>(a@),
            r matches Err(e) ==> self.mac_outcome(*reply) == Err::<Seq<u8>, TunError>(e),
    {
        match self {
            TunTap::Tun(_) => Err(TunError::Unsupported),
            TunTap::Tap(t) => {
                if !t.open {
                    Err(TunError::Closed)
                } else {
                    Ok(link_addr_of(reply))
                }
            },
        }
    }

    /// Whether the file status flags `status_flags` (as read from the
    /// descriptor) put it in non-blocking mode.
    pub fn is_nonblocking(&self, status_flags: i32) -> (r: Result<bool, TunError>)
        ensures
            !self.spec_is_open() ==> r == Err::<bool, TunError>(TunError::Closed),
            self.spec_is_open() ==> r == Ok::<bool, TunError>(status_flags & O_NONBLOCK != 0),
    {
        if !self.is_open() {
            return Err(TunError::Closed);
        }
        Ok(status_flags & O_NONBLOCK != 0)
    }

    /// The file status flags to write to the descriptor so that it is in
    /// non-blocking mode exactly when `nonblocking`, the other flags kept.
    pub fn set_nonblocking(&self, status_flags: i32, nonblocking: bool) -> (r: Result<
        i32,
        TunError,
    >)
        ensures
            !self.spec_is_open() ==> r == Err::<i32, TunError>(TunError::Closed),
            self.spec_is_open() ==> r == Ok::<i32, TunError>(
                if nonblocking {
                    status_flags | O_NONBLOCK
                } else {
                    status_flags & !O_NONBLOCK
                },
            ),
    {
        if !self.is_open() {
            return Err(TunError::Closed);
        }
        if nonblocking {
            Ok(status_flags | O_NONBLOCK)
        } else {
            Ok(status_flags & !O_NONBLOCK)
        }
    }

    /// The bytes to write to the descriptor to send the frame `buf`.
    pub fn send(&self, buf: &[u8]) -> (r: Result<Vec<u8>, TunError>)
        ensures
            !self.spec_is_open() ==> r == Err::<Vec<u8>, TunError>(TunError::Closed),
            self.spec_is_open() ==> r is Ok && r.unwrap()@ == self.wire_frame(buf@),
    {
        if !self.is_open() {
            return Err(TunError::Closed);
        }
        if self.ignore_packet_info() && self.is_tun() {
            let mut w = pi_header_for(buf);
            append_bytes(&mut w, buf);
            Ok(w)
        } else {
            let mut w: Vec<u8> = Vec::new();
            append_bytes(&mut w, buf);
            Ok(w)
        }
    }

    /// The bytes to write to the descriptor to send, as one frame, the
    /// buffers `bufs` joined in order.
    pub fn send_vectored(&self, bufs: &Vec<Vec<u8>>) -> (r: Result<Vec<u8>, TunError>)
        ensures
            !self.spec_is_open() ==> r == Err::<Vec<u8>, TunError>(TunError::Closed),
            self.spec_is_open() ==> r is Ok && r.unwrap()@ == self.wire_frame(flatten(bufs@)),
    {
        let frame = gather(bufs);
        self.send(frame.as_slice())
    }

    /// How many of the caller's bytes went out when `written` bytes of the
    /// frame reached the descriptor.
    pub fn sent_len(&self, written: usize) -> (r: usize)
        ensures
            r as int == if self.adds_header() {
                if written <= PI_LEN {
                    0
                } else {
                    written - PI_LEN
                }
            } else {
                written as int
            },
    {
        if self.ignore_packet_info() && self.is_tun() {
            if written <= PI_LEN {
                0
            } else {
                written - PI_LEN
            }
        } else {
            written
        }
    }

    /// How many bytes to read from the descriptor so that a frame whose
    /// payload fills `len` bytes arrives whole.
    pub fn recv_capacity(&self, len: usize) -> (r: usize)
        ensures
            self.adds_header() ==> r == min_len(len + PI_LEN, usize::MAX as int),
            !self.adds_header() ==> r == len,
    {
        if self.ignore_packet_info() && self.is_tun() {
            if len > usize::MAX - PI_LEN {
                usize::MAX
            } else {
                len + PI_LEN
            }
        } else {
            len
        }
    }

    fn payload(&self, wire: &[u8]) -> (r: Vec<u8>)
        ensures
            r@ == self.payload_of(wire@),
    {
        let mut p: Vec<u8> = Vec::new();
        if self.ignore_packet_info() && self.is_tun() {
            if wire.len() > PI_LEN {
                let mut i: usize = PI_LEN;
                while i < wire.len()
                    invariant
                        PI_LEN <= i <= wire@.len(),
                        p@ == wire@.subrange(PI_LEN as int, i as int),
                    decreases wire@.len() - i,
                {
                    p.push(wire[i]);
                    i = i + 1;
                    assert(p@ =~= wire@.subrange(PI_LEN as int, i as int));
                }
            }
            assert(wire@.len() <= PI_LEN ==> p@ =~= Seq::<u8>::empty());
        } else {
            append_bytes(&mut p, wire);
            assert(p@ =~= wire@);
        }
        p
    }

    /// Delivers into `buf` the frame whose bytes `wire` were read from the
    /// descriptor: as much of it as `buf` holds, in place from the start.
    /// Returns how many bytes were delivered.
    pub fn recv(&self, wire: &[u8], buf: &mut Vec<u8>) -> (r: Result<usize, TunError>)
        ensures
            !self.spec_is_open() ==> r == Err::<usize, TunError>(TunError::Closed)
                && final(buf)@ == old(buf)@,
            self.spec_is_open() ==> r == Ok::<usize, TunError>(
                min_len(self.payload_of(wire@).len() as int, old(buf)@.len() as int) as usize,
            ) && final(buf)@ == overwrite(old(buf)@, self.payload_of(wire@)),
    {
        if !self.is_open() {
            return Err(TunError::Closed);
        }
        let p = self.payload(wire);
        let n = copy_prefix(p.as_slice(), buf);
        Ok(n)
    }

    /// Delivers the frame whose bytes `wire` were read from the descriptor
    /// across the buffers `bufs`, in order, as much as they hold. Returns how
    /// many bytes were delivered.
    pub fn recv_vectored(&self, wire: &[u8], bufs: &mut Vec<Vec<u8>>) -> (r: Result<
        usize,
        TunError,
    >)
        requires
            flatten(old(bufs)@).len() <= usize::MAX,
        ensures
            !self.spec_is_open() ==> r == Err::<usize, TunError>(TunError::Closed)
                && final(bufs)@ == old(bufs)@,
            self.spec_is_open() ==> r == Ok::<usize, TunError>(
                min_len(
                    self.payload_of(wire@).len() as int,
                    flatten(old(bufs)@).len() as int,
                ) as usize,
            ) && final(bufs)@.len() == old(bufs)@.len() && (forall|i: int|
                0 <= i < old(bufs)@.len() ==> (#[trigger] final(bufs)@[i])@.len()
                    == old(bufs)@[i]@.len()) && flatten(final(bufs)@) == overwrite(
                flatten(old(bufs)@),
                self.payload_of(wire@),
            ),
    {
        if !self.is_open() {
            return Err(TunError::Closed);
        }
        let p = self.payload(wire);
        let n = scatter(p.as_slice(), bufs);
        Ok(n)
    }

    /// Whether the handle keeps the packet-information header away from its
    /// caller; a layer-2 device carries none, so it always does.
    pub fn ignore_packet_info(&self) -> (r: bool)
        ensures
            r == self.spec_ignore_packet_info(),
            !self.spec_is_tun() ==> r,
    {
        match self {
            TunTap::Tun(t) => t.ignore_packet_info,
            TunTap::Tap(_) => true,
        }
    }

    /// Sets whether a layer-3 device adds and strips the packet-information
    /// header. A layer-2 device has no such header: the attempt is refused
    /// and changes nothing.
    pub fn set_ignore_packet_info(&mut self, ign: bool) -> (r: Result<(), TunError>)
        ensures
            !old(self).spec_is_open() ==> r == Err::<(), TunError>(TunError::Closed),
            old(self).spec_is_open() && !old(self).spec_is_tun() ==> r == Err::<(), TunError>(
                TunError::Unsupported,
            ),
            r is Err ==> *final(self) == *old(self),
            !old(self).spec_is_tun() ==> final(self).spec_ignore_packet_info(),
            old(self).spec_is_open() && old(self).spec_is_tun() ==> r is Ok
                && final(self).spec_ignore_packet_info() == ign,
            final(self).spec_is_tun() == old(self).spec_is_tun(),
            final(self).spec_fd() == old(self).spec_fd(),
            final(self).spec_is_open() == old(self).spec_is_open(),
    {
        match self {
            TunTap::Tun(t) => {
                if !t.open {
                    Err(TunError::Closed)
                } else {
                    proof {
                        use_type_invariant(&*t);
                    }
                    t.ignore_packet_info = ign;
                    Ok(())
                }
            },
            TunTap::Tap(t) => {
                if !t.open {
                    Err(TunError::Closed)
                } else {
                    Err(TunError::Unsupported)
                }
            },
        }
    }

    /// The native descriptor, for polling; -1 once it has been released.
    pub fn as_raw_fd(&self) -> (r: i32)
        ensures
            self.spec_is_open() ==> r >= 0,
            r == if self.spec_is_open() {
                self.spec_fd()
            } else {
                -1i32
            },
    {
        match self {
            TunTap::Tun(t) => {
                proof {
                    use_type_invariant(t);
                }
                if t.open {
                    t.fd
                } else {
                    -1
                }
            },
            TunTap::Tap(t) => {
                proof {
                    use_type_invariant(t);
                }
                if t.open {
                    t.fd
                } else {
                    -1
                }
            },
        }
    }

    /// Gives up the handle and hands its descriptor to the caller. Only a
    /// layer-3 device can hand it over: for a layer-2 device, or a released
    /// handle, the result is -1.
    pub fn into_raw_fd(self) -> (r: i32)
        ensures
            r == if self.spec_is_open() && self.spec_is_tun() {
                self.spec_fd()
            } else {
                -1i32
            },
            self.spec_is_open() && self.spec_is_tun() ==> r >= 0,
    {
        match self {
            TunTap::Tun(t) => {
                proof {
                    use_type_invariant(&t);
                }
                if t.open {
                    t.fd
                } else {
                    -1
                }
            },
            TunTap::Tap(_) => -1,
        }
    }

    /// Marks the handle released and returns the descriptor that the caller
    /// must now close; a handle already released yields `Closed`, so the
    /// descriptor is handed out once only.
    pub fn release(&mut self) -> (r: Result<i32, TunError>)
        ensures
            r == old(self).release_outcome(),
            !final(self).spec_is_open(),
            final(self).spec_is_tun() == old(self).spec_is_tun(),
            final(self).spec_fd() == old(self).spec_fd(),
    {
        match self {
            TunTap::Tun(t) => {
                proof {
                    use_type_invariant(&*t);
                }
                let was = t.open;
                t.open = false;
                if was {
                    Ok(t.fd)
                } else {
                    Err(TunError::Closed)
                }
            },
            TunTap::Tap(t) => {
                proof {
                    use_type_invariant(&*t);
                }
                let was = t.open;
                t.open = false;
                if was {
                    Ok(t.fd)
                } else {
                    Err(TunError::Closed)
                }
            },
        }
    }
}

} // verus!
