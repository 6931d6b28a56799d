use vstd::prelude::*;

verus! {

// Fixed physical addresses of the periodic hardware timer's registers.
// These are platform constants that must match the target's datasheet;
// they are not derivable from anything else in this crate.

/// Reload value register of the periodic timer.
pub const TIMER_LOAD_ADDR: u32 = 0x3F00_B400;

/// Control register of the periodic timer (write-only).
pub const TIMER_CTRL_ADDR: u32 = 0x3F00_B408;

/// Acknowledge register of the periodic timer (write-only): writing any
/// value clears the pending interrupt.
pub const TIMER_ACK_ADDR: u32 = 0x3F00_B40C;

/// Reload value programmed into the timer: the period of the interrupt.
pub const TIMER_RELOAD_VALUE: u32 = 100_000;

/// Value written to the acknowledge register to clear a pending timer
/// interrupt.
pub const TIMER_ACK_VALUE: u32 = 1;

// Bit layout of the timer control register.

/// Bit selecting the 32-bit counter width.
pub const TIMER_CTRL_COUNTER_32BIT_BIT: u32 = 1;

/// Bit unmasking the timer's interrupt line.
pub const TIMER_CTRL_IRQ_ENABLE_BIT: u32 = 5;

/// Bit starting the timer.
pub const TIMER_CTRL_TIMER_ENABLE_BIT: u32 = 7;

/// Bit enabling the free-running counter.
pub const TIMER_CTRL_FREE_RUNNING_BIT: u32 = 9;

/// Offset of the pre-scaler field.
pub const TIMER_CTRL_PRESCALE_OFFSET: u32 = 16;

/// Width of the pre-scaler field.
pub const TIMER_CTRL_PRESCALE_WIDTH: u32 = 8;

/// Pre-scaler value the timer is programmed with.
pub const TIMER_CTRL_PRESCALE_VALUE: u32 = 0x3E;

/// The whole control word that starts the timer, enables its interrupt and
/// selects the 32-bit counter; `timer_control_word` proves it equal to its
/// composition from the fields above.
pub const TIMER_CTRL_START_VALUE: u32 = 0x003E_02A2;

/// Mask with the `width` lowest bits set.
pub open spec fn spec_low_mask(width: u32) -> u32
    recommends
        1 <= width <= 32,
{
    if width >= 32 {
        0xFFFF_FFFFu32
    } else {
        !(0xFFFF_FFFFu32 << width)
    }
}

/// Mask selecting the bits of the field at `offset` of size `width`.
pub open spec fn spec_field_mask(offset: u32, width: u32) -> u32
    recommends
        1 <= width,
        offset + width <= 32,
{
    spec_low_mask(width) << offset
}

/// The value of the field at `offset` of size `width` within `reg`.
pub open spec fn spec_field_get(reg: u32, offset: u32, width: u32) -> u32
    recommends
        1 <= width,
        offset + width <= 32,
{
    (reg >> offset) & spec_low_mask(width)
}

/// `reg` with the field at `offset` of size `width` replaced by the low
/// `width` bits of `value`, all other bits unchanged.
pub open spec fn spec_field_set(reg: u32, offset: u32, width: u32, value: u32) -> u32
    recommends
        1 <= width,
        offset + width <= 32,
{
    (reg & !spec_field_mask(offset, width)) | ((value & spec_low_mask(width)) << offset)
}

/// Executable mask with the `width` lowest bits set.
pub fn low_mask(width: u32) -> (r: u32)
    requires
        1 <= width <= 32,
    ensures
        r == spec_low_mask(width),
{
    if width >= 32 {
        0xFFFF_FFFF
    } else {
        !(0xFFFF_FFFFu32 << width)
    }
}

/// Read the field at `offset` of size `width` out of a register value.
pub fn field_get(reg: u32, offset: u32, width: u32) -> (r: u32)
    requires
        1 <= width,
        offset + width <= 32,
    ensures
        r == spec_field_get(reg, offset, width),
{
    let m = low_mask(width);
    (reg >> offset) & m
}

/// The read-modify-write step of a field-scoped `modify`: replace the field
/// at `offset` of size `width` in the previously read register value by
/// `value`, preserving every bit outside the field.
pub fn field_set(reg: u32, offset: u32, width: u32, value: u32) -> (r: u32)
    requires
        1 <= width,
        offset + width <= 32,
    ensures
        r == spec_field_set(reg, offset, width, value),
{
    let m = low_mask(width);
    (reg & !(m << offset)) | ((value & m) << offset)
}

/// Setting a field preserves every bit outside the field: the defining
/// property of a field-scoped read-modify-write.
pub proof fn lemma_field_set_preserves_other_bits(
    reg: u32,
    offset: u32,
    width: u32,
    value: u32,
    i: u32,
)
    requires
        1 <= width,
        offset + width <= 32,
        i < 32,
        i < offset || offset + width <= i,
    ensures
        (spec_field_set(reg, offset, width, value) >> i) & 1 == (reg >> i) & 1,
{
    assert(((((reg & !((if width >= 32 {
        0xFFFF_FFFFu32
    } else {
        !(0xFFFF_FFFFu32 << width)
    }) << offset)) | ((value & (if width >= 32 {
        0xFFFF_FFFFu32
    } else {
        !(0xFFFF_FFFFu32 << width)
    })) << offset)) >> i) & 1) == ((reg >> i) & 1)) by (bit_vector)
        requires
            1 <= width,
            width <= 32,
            offset <= 31,
            offset + width <= 32,
            i < 32,
            i < offset || offset + width <= i,
    ;
}

/// Setting one field leaves the value of any disjoint field unchanged.
pub proof fn lemma_field_set_preserves_other_fields(
    reg: u32,
    offset: u32,
    width: u32,
    value: u32,
    offset2: u32,
    width2: u32,
)
    requires
        1 <= width,
        offset + width <= 32,
        1 <= width2,
        offset2 + width2 <= 32,
        offset + width <= offset2 || offset2 + width2 <= offset,
    ensures
        spec_field_get(spec_field_set(reg, offset, width, value), offset2, width2)
            == spec_field_get(reg, offset2, width2),
{
    assert((((reg & !((if width >= 32 {
        0xFFFF_FFFFu32
    } else {
        !(0xFFFF_FFFFu32 << width)
    }) << offset)) | ((value & (if width >= 32 {
        0xFFFF_FFFFu32
    } else {
        !(0xFFFF_FFFFu32 << width)
    })) << offset)) >> offset2) & (if width2 >= 32 {
        0xFFFF_FFFFu32
    } else {
        !(0xFFFF_FFFFu32 << width2)
    }) == (reg >> offset2) & (if width2 >= 32 {
        0xFFFF_FFFFu32
    } else {
        !(0xFFFF_FFFFu32 << width2)
    })) by (bit_vector)
        requires
            1 <= width,
            width <= 32,
            offset <= 31,
            offset + width <= 32,
            1 <= width2,
            width2 <= 32,
            offset2 <= 31,
            offset2 + width2 <= 32,
            offset + width <= offset2 || offset2 + width2 <= offset,
    ;
}

/// Reading a field back right after setting it yields the written value,
/// truncated to the field's width.
pub proof fn lemma_field_set_then_get(reg: u32, offset: u32, width: u32, value: u32)
    requires
        1 <= width,
        offset + width <= 32,
    ensures
        spec_field_get(spec_field_set(reg, offset, width, value), offset, width)
            == value & spec_low_mask(width),
{
    assert((((reg & !((if width >= 32 {
        0xFFFF_FFFFu32
    } else {
        !(0xFFFF_FFFFu32 << width)
    }) << offset)) | ((value & (if width >= 32 {
        0xFFFF_FFFFu32
    } else {
        !(0xFFFF_FFFFu32 << width)
    })) << offset)) >> offset) & (if width >= 32 {
        0xFFFF_FFFFu32
    } else {
        !(0xFFFF_FFFFu32 << width)
    }) == value & (if width >= 32 {
        0xFFFF_FFFFu32
    } else {
        !(0xFFFF_FFFFu32 << width)
    })) by (bit_vector)
        requires
            1 <= width,
            width <= 32,
            offset <= 31,
            offset + width <= 32,
    ;
}

/// Compose the timer control word field by field: 32-bit counter width,
/// interrupt enabled, timer started, free-running counter enabled, and the
/// pre-scaler programmed. The result is exactly the documented start value.
pub fn timer_control_word() -> (r: u32)
    ensures
        r == TIMER_CTRL_START_VALUE,
        spec_field_get(r, TIMER_CTRL_COUNTER_32BIT_BIT, 1) == 1,
        spec_field_get(r, TIMER_CTRL_IRQ_ENABLE_BIT, 1) == 1,
        spec_field_get(r, TIMER_CTRL_TIMER_ENABLE_BIT, 1) == 1,
        spec_field_get(r, TIMER_CTRL_FREE_RUNNING_BIT, 1) == 1,
        spec_field_get(r, TIMER_CTRL_PRESCALE_OFFSET, TIMER_CTRL_PRESCALE_WIDTH)
            == TIMER_CTRL_PRESCALE_VALUE,
{
    let r0 = field_set(0, TIMER_CTRL_COUNTER_32BIT_BIT, 1, 1);
    let r1 = field_set(r0, TIMER_CTRL_IRQ_ENABLE_BIT, 1, 1);
    let r2 = field_set(r1, TIMER_CTRL_TIMER_ENABLE_BIT, 1, 1);
    let r3 = field_set(r2, TIMER_CTRL_FREE_RUNNING_BIT, 1, 1);
    let r4 = field_set(r3, TIMER_CTRL_PRESCALE_OFFSET, TIMER_CTRL_PRESCALE_WIDTH,
        TIMER_CTRL_PRESCALE_VALUE);
    proof {
        assert((0u32 & !((!(0xFFFF_FFFFu32 << 1u32)) << 1u32)) | ((1u32 & (!(0xFFFF_FFFFu32
            << 1u32))) << 1u32) == 0x2u32) by (bit_vector);
        assert((0x2u32 & !((!(0xFFFF_FFFFu32 << 1u32)) << 5u32)) | ((1u32 & (!(0xFFFF_FFFFu32
            << 1u32))) << 5u32) == 0x22u32) by (bit_vector);
        assert((0x22u32 & !((!(0xFFFF_FFFFu32 << 1u32)) << 7u32)) | ((1u32 & (!(0xFFFF_FFFFu32
            << 1u32))) << 7u32) == 0xA2u32) by (bit_vector);
        assert((0xA2u32 & !((!(0xFFFF_FFFFu32 << 1u32)) << 9u32)) | ((1u32 & (!(0xFFFF_FFFFu32
            << 1u32))) << 9u32) == 0x2A2u32) by (bit_vector);
        assert((0x2A2u32 & !((!(0xFFFF_FFFFu32 << 8u32)) << 16u32)) | ((0x3Eu32
            & (!(0xFFFF_FFFFu32 << 8u32))) << 16u32) == 0x003E_02A2u32) by (bit_vector);
        assert((0x003E_02A2u32 >> 1u32) & (!(0xFFFF_FFFFu32 << 1u32)) == 1u32) by (bit_vector);
        assert((0x003E_02A2u32 >> 5u32) & (!(0xFFFF_FFFFu32 << 1u32)) == 1u32) by (bit_vector);
        assert((0x003E_02A2u32 >> 7u32) & (!(0xFFFF_FFFFu32 << 1u32)) == 1u32) by (bit_vector);
        assert((0x003E_02A2u32 >> 9u32) & (!(0xFFFF_FFFFu32 << 1u32)) == 1u32) by (bit_vector);
        assert((0x003E_02A2u32 >> 16u32) & (!(0xFFFF_FFFFu32 << 8u32)) == 0x3Eu32)
            by (bit_vector);
    }
    r4
}

} // verus!
