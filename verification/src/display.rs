use vstd::prelude::*;

verus! {

/// Number of commands that bring the controller up.
pub const BOOT_COMMANDS: usize = 21;

/// Microseconds that the controller is left alone after each of them.
pub const BOOT_COMMAND_DELAY_US: u32 = 10_000;

/// Bytes in one row of the controller's memory.
pub const CONTROLLER_COLUMNS: usize = 132;

/// Number of steps that bring the display up.
pub const INIT_STEPS: usize = 75;

/// One thing that the driver does to the display.
#[derive(Clone, Copy, Debug, PartialEq, Eq, Structural)]
pub enum DisplayOp {
    /// Send one byte with the command line low.
    Command(u8),
    /// Send so many zero bytes with the command line high.
    ZeroData(usize),
    /// Wait so many microseconds.
    DelayUs(u32),
}

/// The commands that bring the controller up: reset, scroll line 0, segment
/// and common direction, bias ratio, power control in three steps, booster
/// ratio, resistor ratio, electronic volume, static indicator off, normal
/// display, all pixels off, display on, page 0, column 0.
pub open spec fn boot_commands() -> Seq<u8> {
    seq![
        0xe2u8, 0x40u8, 0xa1u8, 0xc0u8, 0xa2u8, 0x2cu8, 0x2eu8, 0x2fu8, 0xf8u8, 0x00u8, 0x23u8,
        0x81u8, 0x2eu8, 0xacu8, 0x00u8, 0xa6u8, 0xa4u8, 0xafu8, 0xb0u8, 0x00u8, 0x10u8,
    ]
}

/// Step `i` of bringing the display up. Each boot command is followed by a
/// pause; then each of the eight pages is addressed from column 0 and filled
/// with zeros; then the display is switched on.
pub open spec fn init_op_at(i: int) -> DisplayOp {
    if i < 42 {
        if i % 2 == 0 {
            DisplayOp::Command(boot_commands()[i / 2])
        } else {
            DisplayOp::DelayUs(10_000)
        }
    } else if i < 74 {
        let page = (i - 42) / 4;
        let part = (i - 42) % 4;
        if part == 0 {
            DisplayOp::Command((0xb0 + page) as u8)
        } else if part == 1 {
            DisplayOp::Command(0x00)
        } else if part == 2 {
            DisplayOp::Command(0x10)
        } else {
            DisplayOp::ZeroData(132)
        }
    } else {
        DisplayOp::Command(0xaf)
    }
}

/// All the steps that bring the display up, in order.
pub open spec fn init_sequence() -> Seq<DisplayOp> {
    Seq::new(75, |i: int| init_op_at(i))
}

/// The commands that address page `page` for a write of 128 bytes: the page
/// address, then column 4 in two halves.
pub open spec fn page_commands(page: int) -> Seq<u8> {
    seq![(0xb0 + page) as u8, 0x04u8, 0x10u8]
}

/// Boot command `i`.
pub fn boot_command(i: usize) -> (cmd: u8)
    requires
        i < 21,
    ensures
        cmd == boot_commands()[i as int],
{
    let cmds: [u8; 21] = [
        0xe2,  // system reset
        0x40,  // set scroll line 0
        0xa1,  // set segment direction
        0xc0,  // set common direction
        0xa2,  // set bias ratio
        0x2c,  // set power control, first step
        0x2e,  // set power control, second step
        0x2f,  // set power control, third step
        0xf8,  // set booster ratio
        0x00,  // its value
        0x23,  // set resistor ratio
        0x81,  // set electronic volume
        0x2e,  // its value
        0xac,  // set static indicator off
        0x00,  // its value
        0xa6,  // set inverse display off
        0xa4,  // set all pixels on off
        0xaf,  // set display enable
        0xb0,  // set page address 0
        0x00,  // set column address, low half
        0x10,  // set column address, high half
    ];
    cmds[i]
}

/// Step `step` of bringing the display up, or `None` when the display is up.
pub fn init_op(step: usize) -> (op: Option<DisplayOp>)
    ensures
        op == if step < 75 {
            Some(init_sequence()[step as int])
        } else {
            None
        },
{
    if step < 2 * BOOT_COMMANDS {
        if step % 2 == 0 {
            Some(DisplayOp::Command(boot_command(step / 2)))
        } else {
            Some(DisplayOp::DelayUs(BOOT_COMMAND_DELAY_US))
        }
    } else if step < INIT_STEPS - 1 {
        let page: usize = (step - 2 * BOOT_COMMANDS) / 4;
        let part: usize = (step - 2 * BOOT_COMMANDS) % 4;
        if part == 0 {
            Some(DisplayOp::Command(0xb0 + page as u8))
        } else if part == 1 {
            Some(DisplayOp::Command(0x00))
        } else if part == 2 {
            Some(DisplayOp::Command(0x10))
        } else {
            Some(DisplayOp::ZeroData(CONTROLLER_COLUMNS))
        }
    } else if step < INIT_STEPS {
        Some(DisplayOp::Command(0xaf))
    } else {
        None
    }
}

/// The three commands that address page `page` before its 128 bytes are
/// written.
pub fn set_page_commands(page: u32) -> (cmds: [u8; 3])
    requires
        page < 8,
    ensures
        cmds@ == page_commands(page as int),
{
    [0xb0 + page as u8, 0x04, 0x10]
}

} // verus!
