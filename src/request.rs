use vstd::prelude::*;
use crate::error::TunError;

verus! {

/// Width of the name field of an interface request (`IFNAMSIZ`).
pub const IFNAMSIZ: usize = 16;

/// Longest name that the name field holds: its whole width, with no zero
/// padding left after it.
pub const MAX_NAME_LEN: usize = 16;

/// Width of the union that follows the name in `struct ifreq`.
pub const IFRU_SIZE: usize = 16;

/// Length of a link-layer (Ethernet) address.
pub const ETHER_ADDR_LEN: usize = 6;

/// Darwin's `AF_LINK` address family tag.
pub const AF_LINK: u8 = 18;

/// Darwin's `IN6_IFF_NODAD` flag: skip duplicate address detection.
pub const IN6_IFF_NODAD: i32 = 0x0020;

/// `struct ifreq` as bytes: the name field, then the request union.
/// In the union a `struct sockaddr` lies as length byte, family byte, data.
#[derive(Debug)]
pub struct IfReq {
    pub name: Vec<u8>,
    pub ifru: Vec<u8>,
}

/// The parts of `struct in6_ifreq` that a request fills: the name field and
/// the flags word of its union. Every other byte of the structure is zero.
#[derive(Debug)]
pub struct In6IfReq {
    pub name: Vec<u8>,
    pub flags: i32,
}

/// `n` zero bytes.
pub open spec fn zeros(n: nat) -> Seq<u8> {
    Seq::new(n, |i: int| 0u8)
}

/// The name field holding `name`: its bytes, then zero padding.
pub open spec fn name_field(name: Seq<u8>) -> Seq<u8> {
    name + zeros((IFNAMSIZ - name.len()) as nat)
}

/// Whether a name can be written into the fixed name field.
pub open spec fn name_fits(name: Seq<u8>) -> bool {
    name.len() <= MAX_NAME_LEN
}

/// The request union carrying a link-layer address: length byte, `AF_LINK`,
/// the address, and zeros after it.
pub open spec fn link_addr_union(mac: Seq<u8>) -> Seq<u8> {
    seq![ETHER_ADDR_LEN as u8, AF_LINK] + mac + zeros((IFRU_SIZE - 2 - mac.len()) as nat)
}

impl IfReq {
    pub open spec fn wf(&self) -> bool {
        self.name@.len() == IFNAMSIZ && self.ifru@.len() == IFRU_SIZE
    }

    /// The link-layer address held in the data of the union's sockaddr.
    pub open spec fn link_addr(&self) -> Seq<u8> {
        self.ifru@.subrange(2, 2 + ETHER_ADDR_LEN)
    }
}

impl In6IfReq {
    pub open spec fn wf(&self) -> bool {
        self.name@.len() == IFNAMSIZ
    }
}

fn zeroed(n: usize) -> (r: Vec<u8>)
    ensures
        r@ == zeros(n as nat),
{
    let mut r: Vec<u8> = Vec::new();
    let mut i: usize = 0;
    while i < n
        invariant
            i <= n,
            r@ == zeros(i as nat),
        decreases n - i,
    {
        r.push(0u8);
        i = i + 1;
        assert(r@ =~= zeros(i as nat));
    }
    r
}

/// Writes `name` into a zeroed name field; a name too long for the field is
/// refused before anything is copied.
pub fn encode_name(name: &[u8]) -> (r: Result<Vec<u8>, TunError>)
    ensures
        name_fits(name@) <==> r is Ok,
        r is Err ==> r == Err::<Vec<u8>, TunError>(TunError::InvalidConfiguration),
        r is Ok ==> r.unwrap()@ == name_field(name@),
{
    if name.len() > MAX_NAME_LEN {
        return Err(TunError::InvalidConfiguration);
    }
    let mut field = zeroed(IFNAMSIZ);
    let mut i: usize = 0;
    while i < name.len()
        invariant
            name@.len() <= MAX_NAME_LEN,
            i <= name@.len(),
            field@.len() == IFNAMSIZ,
            forall|j: int| 0 <= j < i ==> field@[j] == name@[j],
            forall|j: int| i <= j < IFNAMSIZ ==> field@[j] == 0u8,
        decreases name@.len() - i,
    {
        field[i] = name[i];
        i = i + 1;
    }
    assert(field@ =~= name_field(name@));
    Ok(field)
}

/// A zeroed `struct ifreq` naming the interface `name`.
pub fn ifreq_for(name: &[u8]) -> (r: Result<IfReq, TunError>)
    ensures
        name_fits(name@) <==> r is Ok,
        r is Err ==> r == Err::<IfReq, TunError>(TunError::InvalidConfiguration),
        r is Ok ==> r.unwrap().wf() && r.unwrap().name@ == name_field(name@)
            && r.unwrap().ifru@ == zeros(IFRU_SIZE as nat),
{
    let field = encode_name(name)?;
    Ok(IfReq { name: field, ifru: zeroed(IFRU_SIZE) })
}

/// A zeroed `struct in6_ifreq` naming the interface `name`, with the flag
/// that turns off duplicate address detection.
pub fn in6_ifreq_for(name: &[u8]) -> (r: Result<In6IfReq, TunError>)
    ensures
        name_fits(name@) <==> r is Ok,
        r is Err ==> r == Err::<In6IfReq, TunError>(TunError::InvalidConfiguration),
        r is Ok ==> r.unwrap().wf() && r.unwrap().name@ == name_field(name@)
            && r.unwrap().flags == IN6_IFF_NODAD,
{
    let field = encode_name(name)?;
    Ok(In6IfReq { name: field, flags: IN6_IFF_NODAD })
}

/// A `struct ifreq` for `name` whose union holds the link-layer address
/// `mac`, tagged `AF_LINK`.
pub fn link_addr_ifreq(name: &[u8], mac: [u8; 6]) -> (r: Result<IfReq, TunError>)
    ensures
        name_fits(name@) <==> r is Ok,
        r is Err ==> r == Err::<IfReq, TunError>(TunError::InvalidConfiguration),
        r is Ok ==> r.unwrap().wf() && r.unwrap().name@ == name_field(name@)
            && r.unwrap().ifru@ == link_addr_union(mac@),
{
    let field = encode_name(name)?;
    let mut ifru = zeroed(IFRU_SIZE);
    ifru[0] = ETHER_ADDR_LEN as u8;
    ifru[1] = AF_LINK;
    let mut i: usize = 0;
    while i < ETHER_ADDR_LEN
        invariant
            i <= ETHER_ADDR_LEN,
            mac@.len() == ETHER_ADDR_LEN,
            ifru@.len() == IFRU_SIZE,
            ifru@[0] == ETHER_ADDR_LEN as u8,
            ifru@[1] == AF_LINK,
            forall|j: int| 0 <= j < i ==> ifru@[2 + j] == mac@[j],
            forall|j: int| 2 + i <= j < IFRU_SIZE ==> ifru@[j] == 0u8,
        decreases ETHER_ADDR_LEN - i,
    {
        ifru[2 + i] = mac[i];
        i = i + 1;
    }
    assert(ifru@ =~= link_addr_union(mac@));
    Ok(IfReq { name: field, ifru })
}

/// Reads the link-layer address out of the union of a `struct ifreq`.
pub fn link_addr_of(req: &IfReq) -> (r: [u8; 6])
    requires
        req.wf(),
    ensures
        r@ == req.link_addr(),
{
    let mut mac: [u8; 6] = [0u8; 6];
    let mut i: usize = 0;
    while i < ETHER_ADDR_LEN
        invariant
            i <= ETHER_ADDR_LEN,
            req.wf(),
            mac@.len() == ETHER_ADDR_LEN,
            forall|j: int| 0 <= j < i ==> mac@[j] == req.ifru@[2 + j],
        decreases ETHER_ADDR_LEN - i,
    {
        mac[i] = req.ifru[2 + i];
        i = i + 1;
    }
    assert(mac@ =~= req.link_addr());
    mac
}

/// Writing an address into a request and reading it back yields the same
/// address.
pub proof fn lemma_link_addr_round_trip(req: IfReq, mac: Seq<u8>)
    requires
        req.wf(),
        mac.len() == ETHER_ADDR_LEN,
        req.ifru@ == link_addr_union(mac),
    ensures
        req.link_addr() == mac,
{
    assert(req.link_addr() =~= mac);
}

} // verus!
