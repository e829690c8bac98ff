//! The program image: big-endian 16-bit words, the first of which is the
//! origin, the address at which the words after it are loaded.

use vstd::prelude::*;
use crate::flag::Flag;
use crate::machine::{Machine, MEMORY_SIZE};

verus! {

/// The `index`-th word of the image: two bytes, the high byte first.
pub open spec fn image_word(image: Seq<u8>, index: int) -> u16 {
    (image[2 * index] as int * 0x100 + image[2 * index + 1] as int) as u16
}

/// The address at which the program is loaded: the first word of the image.
pub open spec fn image_origin(image: Seq<u8>) -> u16 {
    image_word(image, 0)
}

/// The number of words of the program: all words of the image but the origin.
pub open spec fn program_len(image: Seq<u8>) -> int {
    image.len() / 2 - 1
}

/// Whether the image can be loaded: it is not empty, it is made of whole
/// words, and the program ends within the address space.
pub open spec fn image_valid(image: Seq<u8>) -> bool {
    &&& image.len() > 0
    &&& image.len() % 2 == 0
    &&& image_origin(image) + program_len(image) <= MEMORY_SIZE
}

/// The memory after the image is loaded: the words of the program in order
/// from the origin, and zero everywhere else.
pub open spec fn loaded_memory(image: Seq<u8>) -> Seq<u16> {
    Seq::new(
        MEMORY_SIZE as nat,
        |address: int|
            if image_origin(image) <= address < image_origin(image) + program_len(image) {
                image_word(image, address - image_origin(image) + 1)
            } else {
                0u16
            },
    )
}

/// The state in which a machine starts on a valid image: the program
/// loaded, the program counter at the origin, the registers zero, the flag
/// zero, the machine running, and nothing read from or written to the console.
pub open spec fn boot(image: Seq<u8>) -> Machine {
    Machine {
        memory: loaded_memory(image),
        registers: Seq::new(8, |r: int| 0u16),
        pc: image_origin(image),
        flag: Flag::Zero,
        running: true,
        input: Seq::empty(),
        output: Seq::empty(),
        reads: 0,
    }
}

proof fn lemma_join_bytes(high: u8, low: u8)
    by (bit_vector)
    ensures
        ((high as u16) << 8 | (low as u16)) == high as u16 * 0x100 + low as u16,
{
}

/// Reads the `index`-th word of the image.
pub fn read_image_word(binary: &Vec<u8>, index: usize) -> (word: u16)
    requires
        2 * index + 1 < binary.len(),
    ensures
        word == image_word(binary@, index as int),
{
    let high: u8 = binary[2 * index];
    let low: u8 = binary[2 * index + 1];
    proof {
        lemma_join_bytes(high, low);
    }
    (high as u16) << 8 | (low as u16)
}

} // verus!
