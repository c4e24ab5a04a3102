use vstd::prelude::*;
use arrayvec::ArrayVec;

verus! {

/// Number of general-purpose registers.
pub const NUM_DATA_REGISTERS: usize = 16;

/// Index of the register that instructions use as a flag output.
pub const FLAG_REGISTER: u8 = 15;

/// The sum of two bytes, modulo 256.
pub open spec fn wrapped_sum(a: u8, b: u8) -> u8 {
    ((a + b) % 256) as u8
}

/// The difference of two bytes, modulo 256.
pub open spec fn wrapped_difference(a: u8, b: u8) -> u8 {
    ((a - b) % 256) as u8
}

/// The sum of two 16-bit values, modulo 65536.
pub open spec fn wrapped_sum16(a: u16, b: u16) -> u16 {
    ((a + b) % 65536) as u16
}

/// The 16-bit address register.
#[derive(Clone, Copy, Debug, PartialEq, Eq, Structural)]
pub struct IRegister {
    value: u16,
}

impl View for IRegister {
    type V = u16;

    closed spec fn view(&self) -> u16 {
        self.value
    }
}

impl IRegister {
    pub fn new() -> (register: IRegister)
        ensures
            register@ == 0,
    {
        IRegister { value: 0 }
    }

    pub fn get(&self) -> (value: u16)
        ensures
            value == self@,
    {
        self.value
    }

    pub fn set(&mut self, new_value: u16)
        ensures
            final(self)@ == new_value,
    {
        self.value = new_value;
    }

    /// Adds `value` modulo 65536 and tells whether the sum left the 16-bit
    /// range.
    pub fn add(&mut self, value: u16) -> (overflow: bool)
        ensures
            final(self)@ == wrapped_sum16(old(self)@, value),
            overflow == (old(self)@ + value > u16::MAX),
    {
        let previous_value = self.value;
        self.value = self.value.wrapping_add(value);
        self.value < previous_value
    }
}

/// One 8-bit general-purpose register.
#[derive(Clone, Copy, Debug, PartialEq, Eq, Structural)]
pub struct DataRegister {
    value: u8,
}

impl View for DataRegister {
    type V = u8;

    closed spec fn view(&self) -> u8 {
        self.value
    }
}

/// The registers V0 to VF, in this order.
pub type AllDataRegisters = ArrayVec<DataRegister, 16>;

/// The registers held by the backing vector, V0 first.
pub uninterp spec fn register_cells(cells: ArrayVec<DataRegister, 16>) -> Seq<DataRegister>;

/// `ArrayVec::new`: a fresh vector holds nothing.
#[verifier::external_body]
fn cells_new() -> (cells: ArrayVec<DataRegister, 16>)
    ensures
        register_cells(cells) == Seq::<DataRegister>::empty(),
{
    ArrayVec::new()
}

/// `ArrayVec::push`: appends the element; it panics on a full vector, which
/// the precondition leaves out.
#[verifier::external_body]
fn cells_push(cells: &mut ArrayVec<DataRegister, 16>, cell: DataRegister)
    requires
        register_cells(*old(cells)).len() < 16,
    ensures
        register_cells(*final(cells)) == register_cells(*old(cells)).push(cell),
{
    cells.push(cell)
}

/// Indexing an `ArrayVec` for reading: the element at `index`; it panics
/// beyond the length, which the precondition leaves out.
#[verifier::external_body]
fn cell_at(cells: &ArrayVec<DataRegister, 16>, index: usize) -> (cell: DataRegister)
    requires
        index < register_cells(*cells).len(),
    ensures
        cell == register_cells(*cells)[index as int],
{
    cells[index]
}

/// Indexing an `ArrayVec` for writing: the element at `index` is replaced
/// and the others stay; it panics beyond the length, which the precondition
/// leaves out.
#[verifier::external_body]
fn cell_store(cells: &mut ArrayVec<DataRegister, 16>, index: usize, cell: DataRegister)
    requires
        index < register_cells(*old(cells)).len(),
    ensures
        register_cells(*final(cells)) == register_cells(*old(cells)).update(index as int, cell),
{
    cells[index] = cell;
}

impl DataRegister {
    pub fn new() -> (register: DataRegister)
        ensures
            register@ == 0,
    {
        DataRegister { value: 0 }
    }

    /// The sixteen registers, all zero.
    pub fn initialize_all() -> (cells: AllDataRegisters)
        ensures
            register_cells(cells).len() == NUM_DATA_REGISTERS,
            forall|index: int| 0 <= index < NUM_DATA_REGISTERS ==> register_cells(cells)[index]@ == 0,
    {
        let mut cells = cells_new();
        let mut count: usize = 0;
        while count < NUM_DATA_REGISTERS
            invariant
                count <= NUM_DATA_REGISTERS,
                register_cells(cells).len() == count,
                forall|index: int| 0 <= index < count ==> register_cells(cells)[index]@ == 0,
            decreases NUM_DATA_REGISTERS - count,
        {
            cells_push(&mut cells, DataRegister::new());
            count += 1;
        }
        cells
    }

    pub fn get(&self) -> (value: u8)
        ensures
            value == self@,
    {
        self.value
    }

    pub fn set(&mut self, value: u8)
        ensures
            final(self)@ == value,
    {
        self.value = value;
    }

    /// Adds `value` modulo 256 and tells whether a carry occurred.
    pub fn add(&mut self, value: u8) -> (carry: bool)
        ensures
            final(self)@ == wrapped_sum(old(self)@, value),
            carry == (old(self)@ + value > u8::MAX),
    {
        let previous_value = self.value;
        self.value = self.value.wrapping_add(value);
        self.value < previous_value
    }

    /// Subtracts `value` modulo 256 and tells whether the subtraction went
    /// without a borrow: `true` when no borrow occurred, `false` when one
    /// did.
    pub fn substract(&mut self, value: u8) -> (no_borrow: bool)
        ensures
            final(self)@ == wrapped_difference(old(self)@, value),
            no_borrow == (old(self)@ >= value),
    {
        let previous_value = self.value;
        self.value = self.value.wrapping_sub(value);
        self.value <= previous_value
    }

    /// Shifts the register one bit to the left and returns the bit that was
    /// shifted out, the highest one.
    pub fn shift_left(&mut self) -> (bit: u8)
        ensures
            final(self)@ == (old(self)@ * 2) % 256,
            bit == old(self)@ / 128,
    {
        let value = self.value;
        assert((value >> 7) & 0x1 == value / 128) by (bit_vector);
        assert(value << 1 == (value as u16 * 2) % 256) by (bit_vector);
        let most_significant = (self.value >> 7) & 0x1;
        self.value = self.value << 1;
        most_significant
    }

    /// Shifts the register one bit to the right and returns the bit that was
    /// shifted out, the lowest one.
    pub fn shift_right(&mut self) -> (bit: u8)
        ensures
            final(self)@ == old(self)@ / 2,
            bit == old(self)@ % 2,
    {
        let value = self.value;
        assert(value & 0x1 == value % 2) by (bit_vector);
        assert(value >> 1 == value / 2) by (bit_vector);
        let less_significant = self.value & 0x1;
        self.value = self.value >> 1;
        less_significant
    }
}

/// What the register file holds: the sixteen general-purpose registers and
/// the address register.
pub struct RegistersView {
    pub v: Seq<u8>,
    pub i: u16,
}

/// The register file: V0 to VF and the address register I.
pub struct Registers {
    data: AllDataRegisters,
    i: IRegister,
}

impl View for Registers {
    type V = RegistersView;

    closed spec fn view(&self) -> RegistersView {
        RegistersView {
            v: Seq::new(register_cells(self.data).len(), |k: int| register_cells(self.data)[k]@),
            i: self.i@,
        }
    }
}

impl Registers {
    /// There are exactly sixteen general-purpose registers.
    pub open spec fn wf(&self) -> bool {
        self@.v.len() == NUM_DATA_REGISTERS
    }

    /// A register file with every register zero.
    pub fn new() -> (registers: Registers)
        ensures
            registers.wf(),
            registers@.i == 0,
            forall|k: int| 0 <= k < NUM_DATA_REGISTERS ==> registers@.v[k] == 0,
    {
        Registers { data: DataRegister::initialize_all(), i: IRegister::new() }
    }

    /// The value of register `index`.
    pub fn get(&self, index: u8) -> (value: u8)
        requires
            self.wf(),
            index < NUM_DATA_REGISTERS,
        ensures
            value == self@.v[index as int],
    {
        cell_at(&self.data, index as usize).get()
    }

    /// Sets register `index` to `value`.
    pub fn set(&mut self, index: u8, value: u8)
        requires
            old(self).wf(),
            index < NUM_DATA_REGISTERS,
        ensures
            final(self).wf(),
            final(self)@.i == old(self)@.i,
            final(self)@.v == old(self)@.v.update(index as int, value),
    {
        let mut cell = cell_at(&self.data, index as usize);
        cell.set(value);
        cell_store(&mut self.data, index as usize, cell);
        assert(final(self)@.v =~= old(self)@.v.update(index as int, value));
    }

    /// Adds `value` to register `index`, modulo 256, and tells whether a
    /// carry occurred.
    pub fn add(&mut self, index: u8, value: u8) -> (carry: bool)
        requires
            old(self).wf(),
            index < NUM_DATA_REGISTERS,
        ensures
            final(self).wf(),
            final(self)@.i == old(self)@.i,
            final(self)@.v == old(self)@.v.update(
                index as int,
                wrapped_sum(old(self)@.v[index as int], value),
            ),
            carry == (old(self)@.v[index as int] + value > u8::MAX),
    {
        let mut cell = cell_at(&self.data, index as usize);
        let carry = cell.add(value);
        cell_store(&mut self.data, index as usize, cell);
        assert(final(self)@.v =~= old(self)@.v.update(
            index as int,
            wrapped_sum(old(self)@.v[index as int], value),
        ));
        carry
    }

    /// Subtracts `value` from register `index`, modulo 256, and tells
    /// whether the subtraction went without a borrow: `true` when no borrow
    /// occurred, `false` when one did.
    pub fn subtract(&mut self, index: u8, value: u8) -> (no_borrow: bool)
        requires
            old(self).wf(),
            index < NUM_DATA_REGISTERS,
        ensures
            final(self).wf(),
            final(self)@.i == old(self)@.i,
            final(self)@.v == old(self)@.v.update(
                index as int,
                wrapped_difference(old(self)@.v[index as int], value),
            ),
            no_borrow == (old(self)@.v[index as int] >= value),
    {
        let mut cell = cell_at(&self.data, index as usize);
        let no_borrow = cell.substract(value);
        cell_store(&mut self.data, index as usize, cell);
        assert(final(self)@.v =~= old(self)@.v.update(
            index as int,
            wrapped_difference(old(self)@.v[index as int], value),
        ));
        no_borrow
    }

    /// Shifts register `index` one bit to the left and returns the bit that
    /// was shifted out.
    pub fn shift_left(&mut self, index: u8) -> (bit: u8)
        requires
            old(self).wf(),
            index < NUM_DATA_REGISTERS,
        ensures
            final(self).wf(),
            final(self)@.i == old(self)@.i,
            final(self)@.v == old(self)@.v.update(
                index as int,
                ((old(self)@.v[index as int] * 2) % 256) as u8,
            ),
            bit == old(self)@.v[index as int] / 128,
    {
        let mut cell = cell_at(&self.data, index as usize);
        let bit = cell.shift_left();
        cell_store(&mut self.data, index as usize, cell);
        assert(final(self)@.v =~= old(self)@.v.update(
            index as int,
            ((old(self)@.v[index as int] * 2) % 256) as u8,
        ));
        bit
    }

    /// Shifts register `index` one bit to the right and returns the bit that
    /// was shifted out.
    pub fn shift_right(&mut self, index: u8) -> (bit: u8)
        requires
            old(self).wf(),
            index < NUM_DATA_REGISTERS,
        ensures
            final(self).wf(),
            final(self)@.i == old(self)@.i,
            final(self)@.v == old(self)@.v.update(index as int, old(self)@.v[index as int] / 2),
            bit == old(self)@.v[index as int] % 2,
    {
        let mut cell = cell_at(&self.data, index as usize);
        let bit = cell.shift_right();
        cell_store(&mut self.data, index as usize, cell);
        assert(final(self)@.v =~= old(self)@.v.update(index as int, old(self)@.v[index as int] / 2));
        bit
    }

    /// The value of the address register.
    pub fn address(&self) -> (value: u16)
        ensures
            value == self@.i,
    {
        self.i.get()
    }

    /// Sets the address register.
    pub fn set_address(&mut self, value: u16)
        ensures
            final(self)@.i == value,
            final(self)@.v == old(self)@.v,
    {
        self.i.set(value);
    }

    /// Adds `value` to the address register, modulo 65536, and tells whether
    /// the sum left the 16-bit range.
    pub fn add_address(&mut self, value: u16) -> (overflow: bool)
        ensures
            final(self)@.i == wrapped_sum16(old(self)@.i, value),
            final(self)@.v == old(self)@.v,
            overflow == (old(self)@.i + value > u16::MAX),
    {
        self.i.add(value)
    }
}

} // verus!
