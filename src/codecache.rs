use vstd::prelude::*;
use crate::chip8::{MEMORY_SIZE, ROM_START_ADDRESS};
use crate::codeemitter::{x86_mov_imm_to_m16, x86_ret, CodeEmitter};

verus! {

/// Bytes of executable memory that the cache fills.
pub const CACHE_CAPACITY: usize = 0x10000;
/// Bytes of one entry stub.
pub const STUB_SIZE: usize = 10;

/// The stub for address `a`: `mov word [pc], a; ret`. Jumping into it hands
/// control back to the driver with `pc` set to `a`.
pub open spec fn stub_code(register_pc: u32, a: int) -> Seq<u8> {
    x86_mov_imm_to_m16(a as u16, register_pc) + x86_ret()
}

/// The stubs of the first `n` addresses from the load address on, in order.
pub open spec fn stubs(register_pc: u32, n: nat) -> Seq<u8>
    decreases n,
{
    if n == 0 {
        Seq::empty()
    } else {
        stubs(register_pc, (n - 1) as nat) + stub_code(register_pc, ROM_START_ADDRESS + n - 1)
    }
}

proof fn lemma_stubs_len(register_pc: u32, n: nat)
    ensures
        stubs(register_pc, n).len() == STUB_SIZE * n,
    decreases n,
{
    if n > 0 {
        lemma_stubs_len(register_pc, (n - 1) as nat);
    }
}

/// Why a block was not stored.
#[derive(Clone, Copy, Debug, PartialEq, Eq, Structural)]
pub enum CacheError {
    /// A block for this address is stored already; blocks are never replaced.
    AlreadyCompiled { address: u16 },
    /// The address lies outside CHIP-8 memory.
    AddressOutOfRange { address: u16 },
    /// The executable region has no room left for the block.
    Overflow,
}

/// The translated blocks, laid out one after another in an executable region
/// whose first byte is at native address `base`. `x86_block_addresses[a]` is
/// where control goes for CHIP-8 address `a`: the block compiled from `a`, or
/// else a stub that returns to the driver.
pub struct CodeCache {
    pub x86_block_addresses: Vec<u32>,
    pub reserved: Vec<bool>,
    /// The contents of the executable region, up to its first free byte.
    pub image: Vec<u8>,
    pub base: u32,
}

impl CodeCache {
    pub open spec fn wf(&self) -> bool {
        &&& self.x86_block_addresses.len() == MEMORY_SIZE
        &&& self.reserved.len() == MEMORY_SIZE
        &&& self.image.len() <= CACHE_CAPACITY
        &&& self.base + CACHE_CAPACITY <= u32::MAX
    }

    /// The addresses that have a compiled block.
    pub open spec fn compiled(&self) -> Set<int> {
        Set::new(|a: int| 0 <= a < MEMORY_SIZE && self.reserved@[a])
    }

    /// A cache whose table sends every address from the load address on to its
    /// stub, which stores the address into `pc` (at native `register_pc`).
    pub fn new(base: u32, register_pc: u32) -> (c: CodeCache)
        requires
            base + CACHE_CAPACITY <= u32::MAX,
        ensures
            c.wf(),
            c.base == base,
            c.compiled() == Set::<int>::empty(),
            c.image@ == stubs(register_pc, (MEMORY_SIZE - ROM_START_ADDRESS) as nat),
            forall|a: int|
                0 <= a < MEMORY_SIZE ==> #[trigger] c.x86_block_addresses@[a] == if a
                    >= ROM_START_ADDRESS {
                    (base + STUB_SIZE * (a - ROM_START_ADDRESS)) as u32
                } else {
                    0u32
                },
    {
        let mut x86_block_addresses: Vec<u32> = Vec::new();
        let mut reserved: Vec<bool> = Vec::new();
        while reserved.len() < MEMORY_SIZE
            invariant
                reserved.len() == x86_block_addresses.len() <= MEMORY_SIZE,
                forall|a: int| 0 <= a < reserved.len() ==> !reserved@[a],
                forall|a: int| 0 <= a < reserved.len() ==> x86_block_addresses@[a] == 0,
            decreases MEMORY_SIZE - reserved.len(),
        {
            reserved.push(false);
            x86_block_addresses.push(0);
        }
        let mut cache = CodeCache { x86_block_addresses, reserved, image: Vec::new(), base };
        let mut address: u16 = ROM_START_ADDRESS;
        while (address as usize) < MEMORY_SIZE
            invariant
                cache.wf(),
                cache.base == base,
                ROM_START_ADDRESS <= address <= MEMORY_SIZE,
                forall|a: int| 0 <= a < MEMORY_SIZE ==> !cache.reserved@[a],
                cache.image@ == stubs(register_pc, (address - ROM_START_ADDRESS) as nat),
                forall|a: int|
                    0 <= a < MEMORY_SIZE ==> #[trigger] cache.x86_block_addresses@[a] == if ROM_START_ADDRESS
                        <= a < address {
                        (base + STUB_SIZE * (a - ROM_START_ADDRESS)) as u32
                    } else {
                        0u32
                    },
            decreases MEMORY_SIZE - address,
        {
            proof {
                lemma_stubs_len(register_pc, (address - ROM_START_ADDRESS) as nat);
            }
            let mut code_emitter = CodeEmitter::new();
            code_emitter.mov_imm_to_m16(address, register_pc);
            code_emitter.ret();
            proof {
                assert(code_emitter.raw_code@ =~= stub_code(register_pc, address as int));
                assert(stubs(register_pc, (address + 1 - ROM_START_ADDRESS) as nat) == stubs(
                    register_pc,
                    (address - ROM_START_ADDRESS) as nat,
                ) + stub_code(register_pc, address as int));
            }
            cache.copy(address, &code_emitter.raw_code);
            address = address + 1;
        }
        assert(cache.compiled() =~= Set::<int>::empty());
        cache
    }

    /// Appends `block` to the region and points the table entry of `address` at it.
    fn copy(&mut self, address: u16, block: &Vec<u8>)
        requires
            old(self).wf(),
            (address as int) < MEMORY_SIZE,
            old(self).image.len() + block.len() <= CACHE_CAPACITY,
        ensures
            final(self).wf(),
            final(self).base == old(self).base,
            final(self).reserved == old(self).reserved,
            final(self).image@ == old(self).image@ + block@,
            final(self).x86_block_addresses@ == old(self).x86_block_addresses@.update(
                address as int,
                (old(self).base + old(self).image.len()) as u32,
            ),
    {
        let start = self.base + self.image.len() as u32;
        let mut k: usize = 0;
        while k < block.len()
            invariant
                self.wf(),
                self.base == old(self).base,
                self.reserved == old(self).reserved,
                self.x86_block_addresses == old(self).x86_block_addresses,
                old(self).image.len() + block.len() <= CACHE_CAPACITY,
                k <= block.len(),
                self.image@ =~= old(self).image@ + block@.subrange(0, k as int),
            decreases block.len() - k,
        {
            self.image.push(block[k]);
            k = k + 1;
        }
        assert(block@.subrange(0, block@.len() as int) =~= block@);
        self.x86_block_addresses.set(address as usize, start);
    }

    /// Whether a block compiled from `address` is stored.
    pub fn contains(&self, address: u16) -> (r: bool)
        requires
            self.wf(),
        ensures
            r == self.compiled().contains(address as int),
    {
        (address as usize) < MEMORY_SIZE && self.reserved[address as usize]
    }

    /// Stores the block compiled from `address`. An address keeps the first
    /// block stored for it: a second one is refused.
    pub fn insert(&mut self, address: u16, block: &Vec<u8>) -> (r: Result<(), CacheError>)
        requires
            old(self).wf(),
        ensures
            final(self).wf(),
            final(self).base == old(self).base,
            (address as int) >= MEMORY_SIZE ==> r == Err::<(), CacheError>(
                (CacheError::AddressOutOfRange { address }),
            ),
            (address as int) < MEMORY_SIZE && old(self).compiled().contains(address as int) ==> r
                == Err::<(), CacheError>((CacheError::AlreadyCompiled { address })),
            (address as int) < MEMORY_SIZE && !old(self).compiled().contains(address as int)
                && old(self).image.len() + block.len() > CACHE_CAPACITY ==> r == Err::<
                (),
                CacheError,
            >(CacheError::Overflow),
            (address as int) < MEMORY_SIZE && !old(self).compiled().contains(address as int)
                && old(self).image.len() + block.len() <= CACHE_CAPACITY ==> r is Ok,
            r is Err ==> *final(self) == *old(self),
            r is Ok ==> {
                &&& final(self).compiled() == old(self).compiled().insert(address as int)
                &&& final(self).image@ == old(self).image@ + block@
                &&& final(self).x86_block_addresses@ == old(self).x86_block_addresses@.update(
                    address as int,
                    (old(self).base + old(self).image.len()) as u32,
                )
            },
    {
        if address as usize >= MEMORY_SIZE {
            return Err(CacheError::AddressOutOfRange { address });
        }
        if self.reserved[address as usize] {
            return Err(CacheError::AlreadyCompiled { address });
        }
        if block.len() > CACHE_CAPACITY - self.image.len() {
            return Err(CacheError::Overflow);
        }
        self.copy(address, block);
        self.reserved.set(address as usize, true);
        assert(self.compiled() =~= old(self).compiled().insert(address as int));
        Ok(())
    }
}

} // verus!
