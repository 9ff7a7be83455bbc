//! The 64 KiB address space of the machine, with page-granular banking.

use vstd::prelude::*;

verus! {

/// What a bank holds, as the memory map sees it.
pub enum BankView {
    Rom(Seq<u8>),
    Ram(Seq<u8>),
}

/// The bytes held by a bank, whatever its kind.
pub open spec fn bank_bytes(b: BankView) -> Seq<u8> {
    match b {
        BankView::Rom(bytes) => bytes,
        BankView::Ram(bytes) => bytes,
    }
}

/// Whether a write at the bank-local offset `local` is taken by the bank.
pub open spec fn bank_writeable(b: BankView, local: int) -> bool {
    match b {
        BankView::Rom(_) => false,
        BankView::Ram(bytes) => 0 <= local < bytes.len(),
    }
}

/// The byte a bank yields at a bank-local offset: zero past its end.
pub open spec fn bank_read(b: BankView, local: int) -> u8 {
    if 0 <= local < bank_bytes(b).len() {
        bank_bytes(b)[local]
    } else {
        0
    }
}

/// The bank after a write at a bank-local offset that it accepts.
pub open spec fn bank_write(b: BankView, local: int, v: u8) -> BankView {
    match b {
        BankView::Rom(bytes) => BankView::Rom(bytes),
        BankView::Ram(bytes) => BankView::Ram(
            if 0 <= local < bytes.len() {
                bytes.update(local, v)
            } else {
                bytes
            },
        ),
    }
}

/// The shared RAM after a bank takes a write of `v` at CPU address `addr`
/// (bank-local offset `local`). A bank may update the RAM as well as, or
/// instead of, its own store; the ROM and RAM banks here leave it alone.
pub open spec fn bank_ram_write(b: BankView, addr: u16, local: int, v: u8, ram: Seq<u8>) -> Seq<u8> {
    match b {
        BankView::Rom(_) => ram,
        BankView::Ram(_) => ram,
    }
}

/// A memory bank that can be mapped into the address space.
///
/// `addr` is the CPU address and `offset` the base that the page map
/// subtracts from it to obtain the bank-local offset.
pub trait MemoryBank {
    spec fn bank_view(&self) -> BankView;

    fn size(&self) -> (r: usize)
        ensures
            r as int == bank_bytes(self.bank_view()).len(),
    ;

    fn is_writeable(&self, addr: u16) -> (r: bool)
        ensures
            r == bank_writeable(self.bank_view(), addr as int),
    ;

    fn read_byte(&self, addr: u16, offset: u16, ram: &[u8]) -> (r: u8)
        requires
            offset <= addr,
        ensures
            r == bank_read(self.bank_view(), addr - offset),
    ;

    fn write_byte(&mut self, addr: u16, offset: u16, val: u8, ram: &mut Vec<u8>)
        requires
            offset <= addr,
            bank_writeable(old(self).bank_view(), addr - offset),
        ensures
            final(self).bank_view() == bank_write(old(self).bank_view(), addr - offset, val),
            final(ram)@ == bank_ram_write(old(self).bank_view(), addr, addr - offset, val, old(ram)@),
    ;
}

/// A read-only bank holding a ROM image.
pub struct RomBank {
    bytes: Vec<u8>,
}

impl RomBank {
    pub fn with_bytes(bytes: &[u8]) -> (r: Bank)
        ensures
            r.bank_view() == BankView::Rom(bytes@),
    {
        let mut v: Vec<u8> = Vec::new();
        let mut i: usize = 0;
        while i < bytes.len()
            invariant
                i <= bytes@.len(),
                v@ == bytes@.subrange(0, i as int),
            decreases bytes@.len() - i,
        {
            v.push(bytes[i]);
            i += 1;
            assert(v@ =~= bytes@.subrange(0, i as int));
        }
        assert(v@ =~= bytes@);
        Bank::Rom(RomBank { bytes: v })
    }
}

impl MemoryBank for RomBank {
    closed spec fn bank_view(&self) -> BankView {
        BankView::Rom(self.bytes@)
    }

    fn size(&self) -> (r: usize) {
        self.bytes.len()
    }

    fn is_writeable(&self, addr: u16) -> (r: bool) {
        false
    }

    fn read_byte(&self, addr: u16, offset: u16, ram: &[u8]) -> (r: u8) {
        let local = (addr - offset) as usize;
        if local < self.bytes.len() {
            self.bytes[local]
        } else {
            0
        }
    }

    fn write_byte(&mut self, addr: u16, offset: u16, val: u8, ram: &mut Vec<u8>) {
    }
}

/// A read-write bank with a store of its own.
pub struct RamBank {
    bytes: Vec<u8>,
}

impl RamBank {
    /// A bank of `size` zero bytes.
    pub fn with_size(size: usize) -> (r: Bank)
        ensures
            r.bank_view() == BankView::Ram(Seq::new(size as nat, |i: int| 0u8)),
    {
        let mut v: Vec<u8> = Vec::new();
        let mut i: usize = 0;
        while i < size
            invariant
                i <= size,
                v@ == Seq::new(i as nat, |j: int| 0u8),
            decreases size - i,
        {
            v.push(0);
            i += 1;
            assert(v@ =~= Seq::new(i as nat, |j: int| 0u8));
        }
        Bank::Ram(RamBank { bytes: v })
    }
}

impl MemoryBank for RamBank {
    closed spec fn bank_view(&self) -> BankView {
        BankView::Ram(self.bytes@)
    }

    fn size(&self) -> (r: usize) {
        self.bytes.len()
    }

    fn is_writeable(&self, addr: u16) -> (r: bool) {
        (addr as usize) < self.bytes.len()
    }

    fn read_byte(&self, addr: u16, offset: u16, ram: &[u8]) -> (r: u8) {
        let local = (addr - offset) as usize;
        if local < self.bytes.len() {
            self.bytes[local]
        } else {
            0
        }
    }

    fn write_byte(&mut self, addr: u16, offset: u16, val: u8, ram: &mut Vec<u8>) {
        let local = (addr - offset) as usize;
        self.bytes.set(local, val);
    }
}

/// The banks that the memory map can route to.
pub enum Bank {
    Rom(RomBank),
    Ram(RamBank),
}

impl MemoryBank for Bank {
    open spec fn bank_view(&self) -> BankView {
        match self {
            Bank::Rom(b) => b.bank_view(),
            Bank::Ram(b) => b.bank_view(),
        }
    }

    fn size(&self) -> (r: usize) {
        match self {
            Bank::Rom(b) => b.size(),
            Bank::Ram(b) => b.size(),
        }
    }

    fn is_writeable(&self, addr: u16) -> (r: bool) {
        match self {
            Bank::Rom(b) => b.is_writeable(addr),
            Bank::Ram(b) => b.is_writeable(addr),
        }
    }

    fn read_byte(&self, addr: u16, offset: u16, ram: &[u8]) -> (r: u8) {
        match self {
            Bank::Rom(b) => b.read_byte(addr, offset, ram),
            Bank::Ram(b) => b.read_byte(addr, offset, ram),
        }
    }

    fn write_byte(&mut self, addr: u16, offset: u16, val: u8, ram: &mut Vec<u8>) {
        match self {
            Bank::Rom(b) => b.write_byte(addr, offset, val, ram),
            Bank::Ram(b) => b.write_byte(addr, offset, val, ram),
        }
    }
}


/// A bank configuration: start address, length, bank id (1-based) and
/// the offset within the bank that the start address maps to.
pub type BankConfig = (u16, u16, usize, u16);

/// The abstract state of the address space.
pub struct MemView {
    pub ram: Seq<u8>,
    pub banks: Seq<BankView>,
    pub map: Seq<(usize, u16)>,
}

/// A configuration that `configure_banks` accepts, given the number of banks.
pub open spec fn config_ok(c: BankConfig, nbanks: int) -> bool {
    &&& c.0 % 256 == 0
    &&& c.1 > 0
    &&& c.1 % 256 == 0
    &&& c.0 >= c.3
    &&& c.0 / 256 + c.1 / 256 <= 256
    &&& c.2 <= nbanks
}

/// The page map with every page unmapped.
pub open spec fn empty_page_map() -> Seq<(usize, u16)> {
    Seq::new(256, |p: int| (0usize, 0u16))
}

/// The page map after one configuration is laid over `map`.
pub open spec fn apply_config(map: Seq<(usize, u16)>, c: BankConfig) -> Seq<(usize, u16)> {
    Seq::new(
        256,
        |p: int|
            if c.0 / 256 <= p < c.0 / 256 + c.1 / 256 {
                (c.2, (c.0 - c.3) as u16)
            } else {
                map[p]
            },
    )
}

/// The page map built from a list of configurations; later ones win.
pub open spec fn page_map(configs: Seq<BankConfig>) -> Seq<(usize, u16)>
    decreases configs.len(),
{
    if configs.len() == 0 {
        empty_page_map()
    } else {
        apply_config(page_map(configs.drop_last()), configs.last())
    }
}

impl MemView {
    pub open spec fn wf(self) -> bool {
        &&& self.ram.len() == 65536
        &&& self.map.len() == 256
        &&& forall|p: int|
            0 <= p < 256 ==> #[trigger] self.map[p].0 <= self.banks.len() && self.map[p].1 as int
                <= p * 256
    }

    /// The page map entry that governs `addr`.
    pub open spec fn entry(self, addr: u16) -> (usize, u16) {
        self.map[addr as int / 256]
    }

    /// Whether `addr` is routed to a bank.
    pub open spec fn is_banked(self, addr: u16) -> bool {
        self.entry(addr).0 > 0
    }

    /// The bank that `addr` is routed to.
    pub open spec fn bank_of(self, addr: u16) -> BankView {
        self.banks[self.entry(addr).0 - 1]
    }

    /// The bank-local offset of `addr`.
    pub open spec fn local(self, addr: u16) -> int {
        addr - self.entry(addr).1
    }

    /// The byte that a read of `addr` yields.
    pub open spec fn read(self, addr: u16) -> u8 {
        if self.is_banked(addr) {
            bank_read(self.bank_of(addr), self.local(addr))
        } else {
            self.ram[addr as int]
        }
    }

    /// The address space after a write of `v` at `addr`: a bank that accepts
    /// the write takes it (into its own store, the RAM, or both), otherwise
    /// the RAM cell does.
    pub open spec fn write(self, addr: u16, v: u8) -> MemView {
        if self.is_banked(addr) && bank_writeable(self.bank_of(addr), self.local(addr)) {
            MemView {
                banks: self.banks.update(
                    self.entry(addr).0 - 1,
                    bank_write(self.bank_of(addr), self.local(addr), v),
                ),
                ram: bank_ram_write(self.bank_of(addr), addr, self.local(addr), v, self.ram),
                ..self
            }
        } else {
            MemView { ram: self.ram.update(addr as int, v), ..self }
        }
    }

    /// The bytes read from `len` consecutive addresses starting at `start`.
    pub open spec fn read_seq(self, start: u16, len: nat) -> Seq<u8> {
        Seq::new(len, |i: int| self.read(((start + i) % 65536) as u16))
    }

    /// The address space after writing `data` from `start` on, one byte at a time.
    pub open spec fn write_seq(self, start: u16, data: Seq<u8>) -> MemView
        decreases data.len(),
    {
        if data.len() == 0 {
            self
        } else {
            self.write_seq(start, data.drop_last()).write(
                ((start + data.len() - 1) % 65536) as u16,
                data.last(),
            )
        }
    }
}

/// A 64 KiB address space with a page map routing pages to banks.
pub struct Memory {
    ram: Vec<u8>,
    banks: Vec<Bank>,
    map: Vec<(usize, u16)>,
}

impl View for Memory {
    type V = MemView;

    closed spec fn view(&self) -> MemView {
        MemView {
            ram: self.ram@,
            banks: self.banks@.map_values(|b: Bank| b.bank_view()),
            map: self.map@,
        }
    }
}

/// A write of `v` at `addr` keeps the address space well formed.
pub proof fn lemma_write_wf(m: MemView, addr: u16, v: u8)
    requires
        m.wf(),
    ensures
        m.write(addr, v).wf(),
        m.write(addr, v).map == m.map,
        m.write(addr, v).banks.len() == m.banks.len(),
{
    let w = m.write(addr, v);
    assert forall|p: int| 0 <= p < 256 implies #[trigger] w.map[p].0 <= w.banks.len() && w.map[p].1
        as int <= p * 256 by {
        assert(m.map[p].0 <= m.banks.len());
    }
}

impl Memory {
    /// A zeroed 64 KiB address space with no banks.
    pub fn new() -> (r: Memory)
        ensures
            r@.wf(),
            r@.ram == Seq::new(65536, |i: int| 0u8),
            r@.banks.len() == 0,
            r@.map == empty_page_map(),
    {
        let mut ram: Vec<u8> = Vec::new();
        let mut i: usize = 0;
        while i < 65536
            invariant
                i <= 65536,
                ram@ == Seq::new(i as nat, |j: int| 0u8),
            decreases 65536 - i,
        {
            ram.push(0);
            i += 1;
            assert(ram@ =~= Seq::new(i as nat, |j: int| 0u8));
        }
        let mut map: Vec<(usize, u16)> = Vec::new();
        let mut p: usize = 0;
        while p < 256
            invariant
                p <= 256,
                map@ == Seq::new(p as nat, |j: int| (0usize, 0u16)),
            decreases 256 - p,
        {
            map.push((0, 0));
            p += 1;
            assert(map@ =~= Seq::new(p as nat, |j: int| (0usize, 0u16)));
        }
        let r = Memory { ram, banks: Vec::new(), map };
        assert(r@.banks =~= Seq::<BankView>::empty());
        assert(r@.map =~= empty_page_map());
        r
    }

    /// Installs `banks` and rebuilds the page map from `configs`.
    pub fn configure_banks(&mut self, banks: Vec<Bank>, configs: &[BankConfig])
        requires
            old(self)@.wf(),
            forall|k: int| 0 <= k < configs@.len() ==> config_ok(#[trigger] configs@[k], banks@.len() as int),
        ensures
            final(self)@.wf(),
            final(self)@.ram == old(self)@.ram,
            final(self)@.banks == banks@.map_values(|b: Bank| b.bank_view()),
            final(self)@.map == page_map(configs@),
    {
        let ghost nb = banks@;
        self.banks = banks;
        let mut p: usize = 0;
        while p < 256
            invariant
                p <= 256,
                self.map@.len() == 256,
                self.banks@ == nb,
                self.ram@ == old(self).ram@,
                forall|q: int| 0 <= q < p ==> #[trigger] self.map@[q] == (0usize, 0u16),
            decreases 256 - p,
        {
            self.map.set(p, (0, 0));
            p += 1;
        }
        assert(self.map@ =~= page_map(configs@.subrange(0, 0)));
        let mut k: usize = 0;
        while k < configs.len()
            invariant
                k <= configs@.len(),
                self.map@ == page_map(configs@.subrange(0, k as int)),
                self.map@.len() == 256,
                self.banks@ == nb,
                self.ram@ == old(self).ram@,
                forall|j: int| 0 <= j < configs@.len() ==> config_ok(#[trigger] configs@[j], nb.len() as int),
                forall|q: int|
                    0 <= q < 256 ==> #[trigger] self.map@[q].0 <= nb.len() && self.map@[q].1 as int
                        <= q * 256,
            decreases configs@.len() - k,
        {
            let (start_addr, length, bank_id, target_offset) = configs[k];
            let start_page: usize = (start_addr / 256) as usize;
            let end_page: usize = start_page + (length / 256) as usize;
            let base: u16 = start_addr - target_offset;
            let ghost before = self.map@;
            let mut page: usize = start_page;
            while page < end_page
                invariant
                    start_page <= page <= end_page <= 256,
                    self.map@.len() == 256,
                    self.banks@ == nb,
                    self.ram@ == old(self).ram@,
                    before.len() == 256,
                    start_page * 256 == start_addr,
                    forall|q: int|
                        0 <= q < 256 ==> #[trigger] self.map@[q] == if start_page <= q < page {
                            (bank_id, base)
                        } else {
                            before[q]
                        },
                decreases end_page - page,
            {
                self.map.set(page, (bank_id, base));
                page += 1;
            }
            proof {
                let cs = configs@.subrange(0, k as int + 1);
                assert(cs.drop_last() =~= configs@.subrange(0, k as int));
                assert(self.map@ =~= page_map(cs));
            }
            k += 1;
        }
        assert(configs@.subrange(0, configs@.len() as int) =~= configs@);
    }

    /// The byte at `address`, as routed by the page map.
    pub fn read_byte(&self, address: u16) -> (r: u8)
        requires
            self@.wf(),
        ensures
            r == self@.read(address),
    {
        let (bank_id, offset) = self.map[(address / 256) as usize];
        if bank_id > 0 {
            proof {
                assert(self@.map[address as int / 256].0 <= self@.banks.len());
            }
            self.banks[bank_id - 1].read_byte(address, offset, self.ram.as_slice())
        } else {
            self.ram[address as usize]
        }
    }

    /// Writes `value` at `address`. A mapped bank takes the write only if it
    /// is writeable there; otherwise the RAM cell under it is written.
    pub fn write_byte(&mut self, address: u16, value: u8)
        requires
            old(self)@.wf(),
        ensures
            final(self)@ == old(self)@.write(address, value),
            final(self)@.wf(),
    {
        proof {
            lemma_write_wf(self@, address, value);
        }
        let (bank_id, offset) = self.map[(address / 256) as usize];
        if bank_id > 0 && self.banks[bank_id - 1].is_writeable(address - offset) {
            let ghost old_banks = self.banks@;
            self.banks[bank_id - 1].write_byte(address, offset, value, &mut self.ram);
            proof {
                assert(self.banks@ == old_banks.update(bank_id - 1, self.banks@[bank_id - 1]));
                assert(self@.banks =~= old(self)@.write(address, value).banks);
                assert(self@ =~= old(self)@.write(address, value));
            }
        } else {
            self.ram.set(address as usize, value);
            assert(self@ =~= old(self)@.write(address, value));
        }
    }

    /// Fills `data` with the bytes read from `start` on; addresses wrap at 64 KiB.
    pub fn read_block(&self, start: u16, data: &mut [u8])
        requires
            self@.wf(),
        ensures
            final(data)@ == self@.read_seq(start, old(data)@.len()),
    {
        let n = data.len();
        let mut i: usize = 0;
        while i < n
            invariant
                i <= n == data@.len(),
                self@.wf(),
                forall|j: int| 0 <= j < i ==> #[trigger] data@[j] == self@.read(((start + j) % 65536) as u16),
            decreases n - i,
        {
            let a: u16 = start.wrapping_add((i % 65536) as u16);
            proof {
                lemma_wrap_index(start, i);
            }
            data[i] = self.read_byte(a);
            i += 1;
        }
        assert(data@ =~= self@.read_seq(start, n as nat));
    }

    /// Writes the bytes of `data` from `start` on, one at a time; addresses wrap at 64 KiB.
    pub fn write_block(&mut self, start: u16, data: &[u8])
        requires
            old(self)@.wf(),
        ensures
            final(self)@.wf(),
            final(self)@ == old(self)@.write_seq(start, data@),
    {
        let mut i: usize = 0;
        while i < data.len()
            invariant
                i <= data@.len(),
                self@.wf(),
                self@ == old(self)@.write_seq(start, data@.subrange(0, i as int)),
            decreases data@.len() - i,
        {
            let a: u16 = start.wrapping_add((i % 65536) as u16);
            proof {
                lemma_wrap_index(start, i);
            }
            self.write_byte(a, data[i]);
            proof {
                let d = data@.subrange(0, i as int + 1);
                assert(d.drop_last() =~= data@.subrange(0, i as int));
            }
            i += 1;
        }
        assert(data@.subrange(0, data@.len() as int) =~= data@);
    }

    /// The byte that bank `bank_id` (1-based) yields for `addr` with base `offset`.
    pub fn read_bank_byte(&self, bank_id: usize, addr: u16, offset: u16) -> (r: u8)
        requires
            1 <= bank_id <= self@.banks.len(),
            offset <= addr,
        ensures
            r == bank_read(self@.banks[bank_id - 1], addr - offset),
    {
        self.banks[bank_id - 1].read_byte(addr, offset, self.ram.as_slice())
    }

    /// The raw RAM cell at `addr`, whatever bank shadows it.
    pub fn ram(&self, addr: u16) -> (r: u8)
        requires
            self@.wf(),
        ensures
            r == self@.ram[addr as int],
    {
        self.ram[addr as usize]
    }
}

proof fn lemma_wrap_index(start: u16, i: usize)
    ensures
        start.wrapping_add((i % 65536) as u16) == ((start + i) % 65536) as u16,
{
    let k = (i % 65536) as u16;
    vstd::arithmetic::div_mod::lemma_add_mod_noop_right(start as int, i as int, 65536);
    assert((start + k) % 65536 == (start + i) % 65536);
    assert(start.wrapping_add(k) == (start + k) % 65536);
}

/// A byte written to RAM that no bank shadows reads back unchanged.
pub proof fn lemma_ram_write_read(m: MemView, addr: u16, v: u8)
    requires
        m.wf(),
        !m.is_banked(addr),
    ensures
        m.write(addr, v).read(addr) == v,
{
}

/// Under a ROM bank, a write leaves what reads see unchanged and lands in
/// the RAM cell beneath.
pub proof fn lemma_rom_shadow_write(m: MemView, addr: u16, v: u8)
    requires
        m.wf(),
        m.is_banked(addr),
        m.bank_of(addr) is Rom,
    ensures
        m.write(addr, v).read(addr) == m.read(addr),
        m.write(addr, v).ram[addr as int] == v,
{
}

} // verus!
