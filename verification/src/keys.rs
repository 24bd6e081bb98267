use vstd::prelude::*;
use vstd::slice::slice_to_vec;

verus! {

/// A 32-byte public key. Both actor identities and derived record addresses
/// live in this space: a derived address is simply a key that no actor can
/// sign for.
#[derive(Clone, Copy, Debug, PartialEq, Eq)]
pub struct Identity {
    pub bytes: [u8; 32],
}

impl View for Identity {
    type V = Seq<u8>;

    open spec fn view(&self) -> Seq<u8> {
        self.bytes@
    }
}

impl Identity {
    /// Byte-wise equality of two keys.
    pub fn key_eq(&self, other: &Identity) -> (r: bool)
        ensures
            r <==> self@ == other@,
    {
        let mut i: usize = 0;
        while i < 32
            invariant
                0 <= i <= 32,
                forall|j: int| 0 <= j < i ==> self.bytes@[j] == other.bytes@[j],
            decreases 32 - i,
        {
            if self.bytes[i] != other.bytes[i] {
                return false;
            }
            i += 1;
        }
        proof {
            assert(self@ =~= other@);
        }
        true
    }

    /// Packs 32 bytes into a key; `None` when the length is wrong.
    pub fn from_bytes(v: &Vec<u8>) -> (r: Option<Identity>)
        ensures
            v@.len() == 32 ==> (r matches Some(id) && id@ == v@),
            v@.len() != 32 ==> r is None,
    {
        if v.len() != 32 {
            return None;
        }
        let mut bytes: [u8; 32] = [0u8; 32];
        let mut i: usize = 0;
        while i < 32
            invariant
                0 <= i <= 32,
                v@.len() == 32,
                forall|j: int| 0 <= j < i ==> bytes@[j] == v@[j],
            decreases 32 - i,
        {
            bytes[i] = v[i];
            i += 1;
        }
        proof {
            assert(bytes@ =~= v@);
        }
        Some(Identity { bytes })
    }
}

/// The address that `Pubkey::find_program_address` derives from a program id
/// and a seed tuple. Opaque here: everything the escrow relies on is that it
/// is a pure function of its inputs.
pub uninterp spec fn pda_addr(program_id: Seq<u8>, seeds: Seq<Seq<u8>>) -> Seq<u8>;

/// The bump byte that `Pubkey::find_program_address` picks for a program id
/// and a seed tuple; pure in its inputs, like `pda_addr`.
pub uninterp spec fn pda_bump(program_id: Seq<u8>, seeds: Seq<Seq<u8>>) -> u8;

/// Relies on `Pubkey::find_program_address` (anchor_lang's re-export of the
/// Solana address crate): for at most 15 seeds of at most 32 bytes each it
/// returns a derived 32-byte address and its bump byte, both a pure function
/// of the seeds and the program id. It panics only in the statistically
/// improbable event that no bump byte yields a viable address.
#[verifier::external_body]
fn find_pda(seeds: &Vec<Vec<u8>>, program_id: &Identity) -> (r: (Identity, u8))
    requires
        seeds@.len() < 16,
        forall|i: int| 0 <= i < seeds@.len() ==> (#[trigger] seeds@[i])@.len() <= 32,
    ensures
        r.0@ == pda_addr(program_id@, seeds.deep_view()),
        r.1 == pda_bump(program_id@, seeds.deep_view()),
{
    let seed_slices: Vec<&[u8]> = seeds.iter().map(|s| s.as_slice()).collect();
    let pid = anchor_lang::prelude::Pubkey::new_from_array(program_id.bytes);
    let (addr, bump) = anchor_lang::prelude::Pubkey::find_program_address(&seed_slices, &pid);
    (Identity { bytes: addr.to_bytes() }, bump)
}

/// The id this program is deployed under (base58:
/// GcwrHG7nXB2Tz9P2GcwYfvgTvMdN3vkVWBhMzvEsZfhk), the fixed trailing input of
/// every derivation.
pub open spec fn program_id_seq() -> Seq<u8> {
    seq![
        232u8, 20, 166, 162, 222, 64, 110, 169, 35, 129, 223, 6, 112, 117, 235, 132, 138, 194, 31,
        102, 230, 60, 175, 12, 191, 11, 24, 166, 230, 173, 29, 147,
    ]
}

/// The namespace tag of the mint authority record: "mint_state_v2".
pub open spec fn mint_state_ns() -> Seq<u8> {
    seq![109u8, 105, 110, 116, 95, 115, 116, 97, 116, 101, 95, 118, 50]
}

/// The namespace tag of proposal records: "proposal".
pub open spec fn proposal_ns() -> Seq<u8> {
    seq![112u8, 114, 111, 112, 111, 115, 97, 108]
}

/// The namespace tag of stake records: "deposit".
pub open spec fn deposit_ns() -> Seq<u8> {
    seq![100u8, 101, 112, 111, 115, 105, 116]
}

/// The seed tuple of the mint authority record.
pub open spec fn mint_state_seeds() -> Seq<Seq<u8>> {
    seq![mint_state_ns()]
}

/// The seed tuple of the proposal record registered under `seed`.
pub open spec fn proposal_seeds(seed: Seq<u8>) -> Seq<Seq<u8>> {
    seq![proposal_ns(), seed]
}

/// The seed tuple of the stake record of `staker` on `proposal`.
pub open spec fn deposit_seeds(staker: Seq<u8>, proposal: Seq<u8>) -> Seq<Seq<u8>> {
    seq![deposit_ns(), staker, proposal]
}

/// The program id as a key value.
pub fn program_id() -> (r: Identity)
    ensures
        r@ == program_id_seq(),
{
    let mut b: [u8; 32] = [0u8; 32];
    b[0] = 232;
    b[1] = 20;
    b[2] = 166;
    b[3] = 162;
    b[4] = 222;
    b[5] = 64;
    b[6] = 110;
    b[7] = 169;
    b[8] = 35;
    b[9] = 129;
    b[10] = 223;
    b[11] = 6;
    b[12] = 112;
    b[13] = 117;
    b[14] = 235;
    b[15] = 132;
    b[16] = 138;
    b[17] = 194;
    b[18] = 31;
    b[19] = 102;
    b[20] = 230;
    b[21] = 60;
    b[22] = 175;
    b[23] = 12;
    b[24] = 191;
    b[25] = 11;
    b[26] = 24;
    b[27] = 166;
    b[28] = 230;
    b[29] = 173;
    b[30] = 29;
    b[31] = 147;
    proof {
        assert(b@ =~= program_id_seq());
    }
    Identity { bytes: b }
}

fn mint_state_tag() -> (r: Vec<u8>)
    ensures
        r@ == mint_state_ns(),
{
    let mut v: Vec<u8> = Vec::new();
    v.push(109);
    v.push(105);
    v.push(110);
    v.push(116);
    v.push(95);
    v.push(115);
    v.push(116);
    v.push(97);
    v.push(116);
    v.push(101);
    v.push(95);
    v.push(118);
    v.push(50);
    proof {
        assert(v@ =~= mint_state_ns());
    }
    v
}

fn proposal_tag() -> (r: Vec<u8>)
    ensures
        r@ == proposal_ns(),
{
    let mut v: Vec<u8> = Vec::new();
    v.push(112);
    v.push(114);
    v.push(111);
    v.push(112);
    v.push(111);
    v.push(115);
    v.push(97);
    v.push(108);
    proof {
        assert(v@ =~= proposal_ns());
    }
    v
}

fn deposit_tag() -> (r: Vec<u8>)
    ensures
        r@ == deposit_ns(),
{
    let mut v: Vec<u8> = Vec::new();
    v.push(100);
    v.push(101);
    v.push(112);
    v.push(111);
    v.push(115);
    v.push(105);
    v.push(116);
    proof {
        assert(v@ =~= deposit_ns());
    }
    v
}

/// Derives the mint authority record's address and bump.
pub fn derive_mint_state() -> (r: (Identity, u8))
    ensures
        r.0@ == pda_addr(program_id_seq(), mint_state_seeds()),
        r.1 == pda_bump(program_id_seq(), mint_state_seeds()),
{
    let pid = program_id();
    let mut seeds: Vec<Vec<u8>> = Vec::new();
    seeds.push(mint_state_tag());
    proof {
        assert(seeds.deep_view() =~~= mint_state_seeds());
    }
    find_pda(&seeds, &pid)
}

/// Derives the address and bump of the proposal registered under `seed`.
pub fn derive_proposal(seed: &Identity) -> (r: (Identity, u8))
    ensures
        r.0@ == pda_addr(program_id_seq(), proposal_seeds(seed@)),
        r.1 == pda_bump(program_id_seq(), proposal_seeds(seed@)),
{
    let pid = program_id();
    let mut seeds: Vec<Vec<u8>> = Vec::new();
    seeds.push(proposal_tag());
    seeds.push(slice_to_vec(seed.bytes.as_slice()));
    proof {
        assert(seeds.deep_view() =~~= proposal_seeds(seed@));
    }
    find_pda(&seeds, &pid)
}

/// Derives the address and bump of the stake record of `staker` on
/// `proposal`.
pub fn derive_deposit(staker: &Identity, proposal: &Identity) -> (r: (Identity, u8))
    ensures
        r.0@ == pda_addr(program_id_seq(), deposit_seeds(staker@, proposal@)),
        r.1 == pda_bump(program_id_seq(), deposit_seeds(staker@, proposal@)),
{
    let pid = program_id();
    let mut seeds: Vec<Vec<u8>> = Vec::new();
    seeds.push(deposit_tag());
    seeds.push(slice_to_vec(staker.bytes.as_slice()));
    seeds.push(slice_to_vec(proposal.bytes.as_slice()));
    proof {
        assert(seeds.deep_view() =~~= deposit_seeds(staker@, proposal@));
    }
    find_pda(&seeds, &pid)
}

/// Derivation is deterministic: two derivations from the same program id and
/// seed tuple agree on the address and on the bump.
pub proof fn lemma_derivation_deterministic(
    program_id: Seq<u8>,
    seeds: Seq<Seq<u8>>,
    a1: Seq<u8>,
    b1: u8,
    a2: Seq<u8>,
    b2: u8,
)
    requires
        a1 == pda_addr(program_id, seeds),
        b1 == pda_bump(program_id, seeds),
        a2 == pda_addr(program_id, seeds),
        b2 == pda_bump(program_id, seeds),
    ensures
        a1 == a2,
        b1 == b2,
{
}

} // verus!
