use vstd::prelude::*;

verus! {

/// The keypad key that a key of a PC keyboard stands for, by the label on the PC key.
/// The left-hand block of the keyboard maps onto the keypad:
///
/// ```text
///   1 2 3 4   1 2 3 C
///   Q W E R   4 5 6 D
///   A S D F   7 8 9 E
///   Z X C V   A 0 B F
/// ```
pub open spec fn keypad_layout(label: char) -> Option<usize> {
    if label == '1' {
        Some(0x1)
    } else if label == '2' {
        Some(0x2)
    } else if label == '3' {
        Some(0x3)
    } else if label == '4' {
        Some(0xC)
    } else if label == 'Q' {
        Some(0x4)
    } else if label == 'W' {
        Some(0x5)
    } else if label == 'E' {
        Some(0x6)
    } else if label == 'R' {
        Some(0xD)
    } else if label == 'A' {
        Some(0x7)
    } else if label == 'S' {
        Some(0x8)
    } else if label == 'D' {
        Some(0x9)
    } else if label == 'F' {
        Some(0xE)
    } else if label == 'Z' {
        Some(0xA)
    } else if label == 'X' {
        Some(0x0)
    } else if label == 'C' {
        Some(0xB)
    } else if label == 'V' {
        Some(0xF)
    } else {
        None
    }
}

/// The keypad key for the PC key labelled `label` (an upper-case letter or a digit), if
/// that key is part of the keypad block.
pub fn keypad_key(label: char) -> (r: Option<usize>)
    ensures
        r == keypad_layout(label),
        r matches Some(k) ==> k < 16,
{
    match label {
        '1' => Some(0x1),
        '2' => Some(0x2),
        '3' => Some(0x3),
        '4' => Some(0xC),
        'Q' => Some(0x4),
        'W' => Some(0x5),
        'E' => Some(0x6),
        'R' => Some(0xD),
        'A' => Some(0x7),
        'S' => Some(0x8),
        'D' => Some(0x9),
        'F' => Some(0xE),
        'Z' => Some(0xA),
        'X' => Some(0x0),
        'C' => Some(0xB),
        'V' => Some(0xF),
        _ => None,
    }
}

} // verus!
