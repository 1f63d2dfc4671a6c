//! The width table: for each width from 1 to 128 bits, the smallest
//! native word that stores it.

use crate::convert::UnsignedInteger;
use crate::width::{Intern, InternHelper};
use vstd::prelude::*;

verus! {

impl Intern for InternHelper<1> {
    type UInt = u8;

    open spec fn spec_bits() -> nat {
        1
    }

    fn bits() -> (r: u32) {
        1
    }

    proof fn lemma_table() {
        assert(<u8 as UnsignedInteger>::spec_bits() == 8);
    }
}

impl Intern for InternHelper<2> {
    type UInt = u8;

    open spec fn spec_bits() -> nat {
        2
    }

    fn bits() -> (r: u32) {
        2
    }

    proof fn lemma_table() {
        assert(<u8 as UnsignedInteger>::spec_bits() == 8);
    }
}

impl Intern for InternHelper<3> {
    type UInt = u8;

    open spec fn spec_bits() -> nat {
        3
    }

    fn bits() -> (r: u32) {
        3
    }

    proof fn lemma_table() {
        assert(<u8 as UnsignedInteger>::spec_bits() == 8);
    }
}

impl Intern for InternHelper<4> {
    type UInt = u8;

    open spec fn spec_bits() -> nat {
        4
    }

    fn bits() -> (r: u32) {
        4
    }

    proof fn lemma_table() {
        assert(<u8 as UnsignedInteger>::spec_bits() == 8);
    }
}

impl Intern for InternHelper<5> {
    type UInt = u8;

    open spec fn spec_bits() -> nat {
        5
    }

    fn bits() -> (r: u32) {
        5
    }

    proof fn lemma_table() {
        assert(<u8 as UnsignedInteger>::spec_bits() == 8);
    }
}

impl Intern for InternHelper<6> {
    type UInt = u8;

    open spec fn spec_bits() -> nat {
        6
    }

    fn bits() -> (r: u32) {
        6
    }

    proof fn lemma_table() {
        assert(<u8 as UnsignedInteger>::spec_bits() == 8);
    }
}

impl Intern for InternHelper<7> {
    type UInt = u8;

    open spec fn spec_bits() -> nat {
        7
    }

    fn bits() -> (r: u32) {
        7
    }

    proof fn lemma_table() {
        assert(<u8 as UnsignedInteger>::spec_bits() == 8);
    }
}

impl Intern for InternHelper<8> {
    type UInt = u8;

    open spec fn spec_bits() -> nat {
        8
    }

    fn bits() -> (r: u32) {
        8
    }

    proof fn lemma_table() {
        assert(<u8 as UnsignedInteger>::spec_bits() == 8);
    }
}

impl Intern for InternHelper<9> {
    type UInt = u16;

    open spec fn spec_bits() -> nat {
        9
    }

    fn bits() -> (r: u32) {
        9
    }

    proof fn lemma_table() {
        assert(<u16 as UnsignedInteger>::spec_bits() == 16);
    }
}

impl Intern for InternHelper<10> {
    type UInt = u16;

    open spec fn spec_bits() -> nat {
        10
    }

    fn bits() -> (r: u32) {
        10
    }

    proof fn lemma_table() {
        assert(<u16 as UnsignedInteger>::spec_bits() == 16);
    }
}

impl Intern for InternHelper<11> {
    type UInt = u16;

    open spec fn spec_bits() -> nat {
        11
    }

    fn bits() -> (r: u32) {
        11
    }

    proof fn lemma_table() {
        assert(<u16 as UnsignedInteger>::spec_bits() == 16);
    }
}

impl Intern for InternHelper<12> {
    type UInt = u16;

    open spec fn spec_bits() -> nat {
        12
    }

    fn bits() -> (r: u32) {
        12
    }

    proof fn lemma_table() {
        assert(<u16 as UnsignedInteger>::spec_bits() == 16);
    }
}

impl Intern for InternHelper<13> {
    type UInt = u16;

    open spec fn spec_bits() -> nat {
        13
    }

    fn bits() -> (r: u32) {
        13
    }

    proof fn lemma_table() {
        assert(<u16 as UnsignedInteger>::spec_bits() == 16);
    }
}

impl Intern for InternHelper<14> {
    type UInt = u16;

    open spec fn spec_bits() -> nat {
        14
    }

    fn bits() -> (r: u32) {
        14
    }

    proof fn lemma_table() {
        assert(<u16 as UnsignedInteger>::spec_bits() == 16);
    }
}

impl Intern for InternHelper<15> {
    type UInt = u16;

    open spec fn spec_bits() -> nat {
        15
    }

    fn bits() -> (r: u32) {
        15
    }

    proof fn lemma_table() {
        assert(<u16 as UnsignedInteger>::spec_bits() == 16);
    }
}

impl Intern for InternHelper<16> {
    type UInt = u16;

    open spec fn spec_bits() -> nat {
        16
    }

    fn bits() -> (r: u32) {
        16
    }

    proof fn lemma_table() {
        assert(<u16 as UnsignedInteger>::spec_bits() == 16);
    }
}

impl Intern for InternHelper<17> {
    type UInt = u32;

    open spec fn spec_bits() -> nat {
        17
    }

    fn bits() -> (r: u32) {
        17
    }

    proof fn lemma_table() {
        assert(<u32 as UnsignedInteger>::spec_bits() == 32);
    }
}

impl Intern for InternHelper<18> {
    type UInt = u32;

    open spec fn spec_bits() -> nat {
        18
    }

    fn bits() -> (r: u32) {
        18
    }

    proof fn lemma_table() {
        assert(<u32 as UnsignedInteger>::spec_bits() == 32);
    }
}

impl Intern for InternHelper<19> {
    type UInt = u32;

    open spec fn spec_bits() -> nat {
        19
    }

    fn bits() -> (r: u32) {
        19
    }

    proof fn lemma_table() {
        assert(<u32 as UnsignedInteger>::spec_bits() == 32);
    }
}

impl Intern for InternHelper<20> {
    type UInt = u32;

    open spec fn spec_bits() -> nat {
        20
    }

    fn bits() -> (r: u32) {
        20
    }

    proof fn lemma_table() {
        assert(<u32 as UnsignedInteger>::spec_bits() == 32);
    }
}

impl Intern for InternHelper<21> {
    type UInt = u32;

    open spec fn spec_bits() -> nat {
        21
    }

    fn bits() -> (r: u32) {
        21
    }

    proof fn lemma_table() {
        assert(<u32 as UnsignedInteger>::spec_bits() == 32);
    }
}

impl Intern for InternHelper<22> {
    type UInt = u32;

    open spec fn spec_bits() -> nat {
        22
    }

    fn bits() -> (r: u32) {
        22
    }

    proof fn lemma_table() {
        assert(<u32 as UnsignedInteger>::spec_bits() == 32);
    }
}

impl Intern for InternHelper<23> {
    type UInt = u32;

    open spec fn spec_bits() -> nat {
        23
    }

    fn bits() -> (r: u32) {
        23
    }

    proof fn lemma_table() {
        assert(<u32 as UnsignedInteger>::spec_bits() == 32);
    }
}

impl Intern for InternHelper<24> {
    type UInt = u32;

    open spec fn spec_bits() -> nat {
        24
    }

    fn bits() -> (r: u32) {
        24
    }

    proof fn lemma_table() {
        assert(<u32 as UnsignedInteger>::spec_bits() == 32);
    }
}

impl Intern for InternHelper<25> {
    type UInt = u32;

    open spec fn spec_bits() -> nat {
        25
    }

    fn bits() -> (r: u32) {
        25
    }

    proof fn lemma_table() {
        assert(<u32 as UnsignedInteger>::spec_bits() == 32);
    }
}

impl Intern for InternHelper<26> {
    type UInt = u32;

    open spec fn spec_bits() -> nat {
        26
    }

    fn bits() -> (r: u32) {
        26
    }

    proof fn lemma_table() {
        assert(<u32 as UnsignedInteger>::spec_bits() == 32);
    }
}

impl Intern for InternHelper<27> {
    type UInt = u32;

    open spec fn spec_bits() -> nat {
        27
    }

    fn bits() -> (r: u32) {
        27
    }

    proof fn lemma_table() {
        assert(<u32 as UnsignedInteger>::spec_bits() == 32);
    }
}

impl Intern for InternHelper<28> {
    type UInt = u32;

    open spec fn spec_bits() -> nat {
        28
    }

    fn bits() -> (r: u32) {
        28
    }

    proof fn lemma_table() {
        assert(<u32 as UnsignedInteger>::spec_bits() == 32);
    }
}

impl Intern for InternHelper<29> {
    type UInt = u32;

    open spec fn spec_bits() -> nat {
        29
    }

    fn bits() -> (r: u32) {
        29
    }

    proof fn lemma_table() {
        assert(<u32 as UnsignedInteger>::spec_bits() == 32);
    }
}

impl Intern for InternHelper<30> {
    type UInt = u32;

    open spec fn spec_bits() -> nat {
        30
    }

    fn bits() -> (r: u32) {
        30
    }

    proof fn lemma_table() {
        assert(<u32 as UnsignedInteger>::spec_bits() == 32);
    }
}

impl Intern for InternHelper<31> {
    type UInt = u32;

    open spec fn spec_bits() -> nat {
        31
    }

    fn bits() -> (r: u32) {
        31
    }

    proof fn lemma_table() {
        assert(<u32 as UnsignedInteger>::spec_bits() == 32);
    }
}

impl Intern for InternHelper<32> {
    type UInt = u32;

    open spec fn spec_bits() -> nat {
        32
    }

    fn bits() -> (r: u32) {
        32
    }

    proof fn lemma_table() {
        assert(<u32 as UnsignedInteger>::spec_bits() == 32);
    }
}

impl Intern for InternHelper<33> {
    type UInt = u64;

    open spec fn spec_bits() -> nat {
        33
    }

    fn bits() -> (r: u32) {
        33
    }

    proof fn lemma_table() {
        assert(<u64 as UnsignedInteger>::spec_bits() == 64);
    }
}

impl Intern for InternHelper<34> {
    type UInt = u64;

    open spec fn spec_bits() -> nat {
        34
    }

    fn bits() -> (r: u32) {
        34
    }

    proof fn lemma_table() {
        assert(<u64 as UnsignedInteger>::spec_bits() == 64);
    }
}

impl Intern for InternHelper<35> {
    type UInt = u64;

    open spec fn spec_bits() -> nat {
        35
    }

    fn bits() -> (r: u32) {
        35
    }

    proof fn lemma_table() {
        assert(<u64 as UnsignedInteger>::spec_bits() == 64);
    }
}

impl Intern for InternHelper<36> {
    type UInt = u64;

    open spec fn spec_bits() -> nat {
        36
    }

    fn bits() -> (r: u32) {
        36
    }

    proof fn lemma_table() {
        assert(<u64 as UnsignedInteger>::spec_bits() == 64);
    }
}

impl Intern for InternHelper<37> {
    type UInt = u64;

    open spec fn spec_bits() -> nat {
        37
    }

    fn bits() -> (r: u32) {
        37
    }

    proof fn lemma_table() {
        assert(<u64 as UnsignedInteger>::spec_bits() == 64);
    }
}

impl Intern for InternHelper<38> {
    type UInt = u64;

    open spec fn spec_bits() -> nat {
        38
    }

    fn bits() -> (r: u32) {
        38
    }

    proof fn lemma_table() {
        assert(<u64 as UnsignedInteger>::spec_bits() == 64);
    }
}

impl Intern for InternHelper<39> {
    type UInt = u64;

    open spec fn spec_bits() -> nat {
        39
    }

    fn bits() -> (r: u32) {
        39
    }

    proof fn lemma_table() {
        assert(<u64 as UnsignedInteger>::spec_bits() == 64);
    }
}

impl Intern for InternHelper<40> {
    type UInt = u64;

    open spec fn spec_bits() -> nat {
        40
    }

    fn bits() -> (r: u32) {
        40
    }

    proof fn lemma_table() {
        assert(<u64 as UnsignedInteger>::spec_bits() == 64);
    }
}

impl Intern for InternHelper<41> {
    type UInt = u64;

    open spec fn spec_bits() -> nat {
        41
    }

    fn bits() -> (r: u32) {
        41
    }

    proof fn lemma_table() {
        assert(<u64 as UnsignedInteger>::spec_bits() == 64);
    }
}

impl Intern for InternHelper<42> {
    type UInt = u64;

    open spec fn spec_bits() -> nat {
        42
    }

    fn bits() -> (r: u32) {
        42
    }

    proof fn lemma_table() {
        assert(<u64 as UnsignedInteger>::spec_bits() == 64);
    }
}

impl Intern for InternHelper<43> {
    type UInt = u64;

    open spec fn spec_bits() -> nat {
        43
    }

    fn bits() -> (r: u32) {
        43
    }

    proof fn lemma_table() {
        assert(<u64 as UnsignedInteger>::spec_bits() == 64);
    }
}

impl Intern for InternHelper<44> {
    type UInt = u64;

    open spec fn spec_bits() -> nat {
        44
    }

    fn bits() -> (r: u32) {
        44
    }

    proof fn lemma_table() {
        assert(<u64 as UnsignedInteger>::spec_bits() == 64);
    }
}

impl Intern for InternHelper<45> {
    type UInt = u64;

    open spec fn spec_bits() -> nat {
        45
    }

    fn bits() -> (r: u32) {
        45
    }

    proof fn lemma_table() {
        assert(<u64 as UnsignedInteger>::spec_bits() == 64);
    }
}

impl Intern for InternHelper<46> {
    type UInt = u64;

    open spec fn spec_bits() -> nat {
        46
    }

    fn bits() -> (r: u32) {
        46
    }

    proof fn lemma_table() {
        assert(<u64 as UnsignedInteger>::spec_bits() == 64);
    }
}

impl Intern for InternHelper<47> {
    type UInt = u64;

    open spec fn spec_bits() -> nat {
        47
    }

    fn bits() -> (r: u32) {
        47
    }

    proof fn lemma_table() {
        assert(<u64 as UnsignedInteger>::spec_bits() == 64);
    }
}

impl Intern for InternHelper<48> {
    type UInt = u64;

    open spec fn spec_bits() -> nat {
        48
    }

    fn bits() -> (r: u32) {
        48
    }

    proof fn lemma_table() {
        assert(<u64 as UnsignedInteger>::spec_bits() == 64);
    }
}

impl Intern for InternHelper<49> {
    type UInt = u64;

    open spec fn spec_bits() -> nat {
        49
    }

    fn bits() -> (r: u32) {
        49
    }

    proof fn lemma_table() {
        assert(<u64 as UnsignedInteger>::spec_bits() == 64);
    }
}

impl Intern for InternHelper<50> {
    type UInt = u64;

    open spec fn spec_bits() -> nat {
        50
    }

    fn bits() -> (r: u32) {
        50
    }

    proof fn lemma_table() {
        assert(<u64 as UnsignedInteger>::spec_bits() == 64);
    }
}

impl Intern for InternHelper<51> {
    type UInt = u64;

    open spec fn spec_bits() -> nat {
        51
    }

    fn bits() -> (r: u32) {
        51
    }

    proof fn lemma_table() {
        assert(<u64 as UnsignedInteger>::spec_bits() == 64);
    }
}

impl Intern for InternHelper<52> {
    type UInt = u64;

    open spec fn spec_bits() -> nat {
        52
    }

    fn bits() -> (r: u32) {
        52
    }

    proof fn lemma_table() {
        assert(<u64 as UnsignedInteger>::spec_bits() == 64);
    }
}

impl Intern for InternHelper<53> {
    type UInt = u64;

    open spec fn spec_bits() -> nat {
        53
    }

    fn bits() -> (r: u32) {
        53
    }

    proof fn lemma_table() {
        assert(<u64 as UnsignedInteger>::spec_bits() == 64);
    }
}

impl Intern for InternHelper<54> {
    type UInt = u64;

    open spec fn spec_bits() -> nat {
        54
    }

    fn bits() -> (r: u32) {
        54
    }

    proof fn lemma_table() {
        assert(<u64 as UnsignedInteger>::spec_bits() == 64);
    }
}

impl Intern for InternHelper<55> {
    type UInt = u64;

    open spec fn spec_bits() -> nat {
        55
    }

    fn bits() -> (r: u32) {
        55
    }

    proof fn lemma_table() {
        assert(<u64 as UnsignedInteger>::spec_bits() == 64);
    }
}

impl Intern for InternHelper<56> {
    type UInt = u64;

    open spec fn spec_bits() -> nat {
        56
    }

    fn bits() -> (r: u32) {
        56
    }

    proof fn lemma_table() {
        assert(<u64 as UnsignedInteger>::spec_bits() == 64);
    }
}

impl Intern for InternHelper<57> {
    type UInt = u64;

    open spec fn spec_bits() -> nat {
        57
    }

    fn bits() -> (r: u32) {
        57
    }

    proof fn lemma_table() {
        assert(<u64 as UnsignedInteger>::spec_bits() == 64);
    }
}

impl Intern for InternHelper<58> {
    type UInt = u64;

    open spec fn spec_bits() -> nat {
        58
    }

    fn bits() -> (r: u32) {
        58
    }

    proof fn lemma_table() {
        assert(<u64 as UnsignedInteger>::spec_bits() == 64);
    }
}

impl Intern for InternHelper<59> {
    type UInt = u64;

    open spec fn spec_bits() -> nat {
        59
    }

    fn bits() -> (r: u32) {
        59
    }

    proof fn lemma_table() {
        assert(<u64 as UnsignedInteger>::spec_bits() == 64);
    }
}

impl Intern for InternHelper<60> {
    type UInt = u64;

    open spec fn spec_bits() -> nat {
        60
    }

    fn bits() -> (r: u32) {
        60
    }

    proof fn lemma_table() {
        assert(<u64 as UnsignedInteger>::spec_bits() == 64);
    }
}

impl Intern for InternHelper<61> {
    type UInt = u64;

    open spec fn spec_bits() -> nat {
        61
    }

    fn bits() -> (r: u32) {
        61
    }

    proof fn lemma_table() {
        assert(<u64 as UnsignedInteger>::spec_bits() == 64);
    }
}

impl Intern for InternHelper<62> {
    type UInt = u64;

    open spec fn spec_bits() -> nat {
        62
    }

    fn bits() -> (r: u32) {
        62
    }

    proof fn lemma_table() {
        assert(<u64 as UnsignedInteger>::spec_bits() == 64);
    }
}

impl Intern for InternHelper<63> {
    type UInt = u64;

    open spec fn spec_bits() -> nat {
        63
    }

    fn bits() -> (r: u32) {
        63
    }

    proof fn lemma_table() {
        assert(<u64 as UnsignedInteger>::spec_bits() == 64);
    }
}

impl Intern for InternHelper<64> {
    type UInt = u64;

    open spec fn spec_bits() -> nat {
        64
    }

    fn bits() -> (r: u32) {
        64
    }

    proof fn lemma_table() {
        assert(<u64 as UnsignedInteger>::spec_bits() == 64);
    }
}

impl Intern for InternHelper<65> {
    type UInt = u128;

    open spec fn spec_bits() -> nat {
        65
    }

    fn bits() -> (r: u32) {
        65
    }

    proof fn lemma_table() {
        assert(<u128 as UnsignedInteger>::spec_bits() == 128);
    }
}

impl Intern for InternHelper<66> {
    type UInt = u128;

    open spec fn spec_bits() -> nat {
        66
    }

    fn bits() -> (r: u32) {
        66
    }

    proof fn lemma_table() {
        assert(<u128 as UnsignedInteger>::spec_bits() == 128);
    }
}

impl Intern for InternHelper<67> {
    type UInt = u128;

    open spec fn spec_bits() -> nat {
        67
    }

    fn bits() -> (r: u32) {
        67
    }

    proof fn lemma_table() {
        assert(<u128 as UnsignedInteger>::spec_bits() == 128);
    }
}

impl Intern for InternHelper<68> {
    type UInt = u128;

    open spec fn spec_bits() -> nat {
        68
    }

    fn bits() -> (r: u32) {
        68
    }

    proof fn lemma_table() {
        assert(<u128 as UnsignedInteger>::spec_bits() == 128);
    }
}

impl Intern for InternHelper<69> {
    type UInt = u128;

    open spec fn spec_bits() -> nat {
        69
    }

    fn bits() -> (r: u32) {
        69
    }

    proof fn lemma_table() {
        assert(<u128 as UnsignedInteger>::spec_bits() == 128);
    }
}

impl Intern for InternHelper<70> {
    type UInt = u128;

    open spec fn spec_bits() -> nat {
        70
    }

    fn bits() -> (r: u32) {
        70
    }

    proof fn lemma_table() {
        assert(<u128 as UnsignedInteger>::spec_bits() == 128);
    }
}

impl Intern for InternHelper<71> {
    type UInt = u128;

    open spec fn spec_bits() -> nat {
        71
    }

    fn bits() -> (r: u32) {
        71
    }

    proof fn lemma_table() {
        assert(<u128 as UnsignedInteger>::spec_bits() == 128);
    }
}

impl Intern for InternHelper<72> {
    type UInt = u128;

    open spec fn spec_bits() -> nat {
        72
    }

    fn bits() -> (r: u32) {
        72
    }

    proof fn lemma_table() {
        assert(<u128 as UnsignedInteger>::spec_bits() == 128);
    }
}

impl Intern for InternHelper<73> {
    type UInt = u128;

    open spec fn spec_bits() -> nat {
        73
    }

    fn bits() -> (r: u32) {
        73
    }

    proof fn lemma_table() {
        assert(<u128 as UnsignedInteger>::spec_bits() == 128);
    }
}

impl Intern for InternHelper<74> {
    type UInt = u128;

    open spec fn spec_bits() -> nat {
        74
    }

    fn bits() -> (r: u32) {
        74
    }

    proof fn lemma_table() {
        assert(<u128 as UnsignedInteger>::spec_bits() == 128);
    }
}

impl Intern for InternHelper<75> {
    type UInt = u128;

    open spec fn spec_bits() -> nat {
        75
    }

    fn bits() -> (r: u32) {
        75
    }

    proof fn lemma_table() {
        assert(<u128 as UnsignedInteger>::spec_bits() == 128);
    }
}

impl Intern for InternHelper<76> {
    type UInt = u128;

    open spec fn spec_bits() -> nat {
        76
    }

    fn bits() -> (r: u32) {
        76
    }

    proof fn lemma_table() {
        assert(<u128 as UnsignedInteger>::spec_bits() == 128);
    }
}

impl Intern for InternHelper<77> {
    type UInt = u128;

    open spec fn spec_bits() -> nat {
        77
    }

    fn bits() -> (r: u32) {
        77
    }

    proof fn lemma_table() {
        assert(<u128 as UnsignedInteger>::spec_bits() == 128);
    }
}

impl Intern for InternHelper<78> {
    type UInt = u128;

    open spec fn spec_bits() -> nat {
        78
    }

    fn bits() -> (r: u32) {
        78
    }

    proof fn lemma_table() {
        assert(<u128 as UnsignedInteger>::spec_bits() == 128);
    }
}

impl Intern for InternHelper<79> {
    type UInt = u128;

    open spec fn spec_bits() -> nat {
        79
    }

    fn bits() -> (r: u32) {
        79
    }

    proof fn lemma_table() {
        assert(<u128 as UnsignedInteger>::spec_bits() == 128);
    }
}

impl Intern for InternHelper<80> {
    type UInt = u128;

    open spec fn spec_bits() -> nat {
        80
    }

    fn bits() -> (r: u32) {
        80
    }

    proof fn lemma_table() {
        assert(<u128 as UnsignedInteger>::spec_bits() == 128);
    }
}

impl Intern for InternHelper<81> {
    type UInt = u128;

    open spec fn spec_bits() -> nat {
        81
    }

    fn bits() -> (r: u32) {
        81
    }

    proof fn lemma_table() {
        assert(<u128 as UnsignedInteger>::spec_bits() == 128);
    }
}

impl Intern for InternHelper<82> {
    type UInt = u128;

    open spec fn spec_bits() -> nat {
        82
    }

    fn bits() -> (r: u32) {
        82
    }

    proof fn lemma_table() {
        assert(<u128 as UnsignedInteger>::spec_bits() == 128);
    }
}

impl Intern for InternHelper<83> {
    type UInt = u128;

    open spec fn spec_bits() -> nat {
        83
    }

    fn bits() -> (r: u32) {
        83
    }

    proof fn lemma_table() {
        assert(<u128 as UnsignedInteger>::spec_bits() == 128);
    }
}

impl Intern for InternHelper<84> {
    type UInt = u128;

    open spec fn spec_bits() -> nat {
        84
    }

    fn bits() -> (r: u32) {
        84
    }

    proof fn lemma_table() {
        assert(<u128 as UnsignedInteger>::spec_bits() == 128);
    }
}

impl Intern for InternHelper<85> {
    type UInt = u128;

    open spec fn spec_bits() -> nat {
        85
    }

    fn bits() -> (r: u32) {
        85
    }

    proof fn lemma_table() {
        assert(<u128 as UnsignedInteger>::spec_bits() == 128);
    }
}

impl Intern for InternHelper<86> {
    type UInt = u128;

    open spec fn spec_bits() -> nat {
        86
    }

    fn bits() -> (r: u32) {
        86
    }

    proof fn lemma_table() {
        assert(<u128 as UnsignedInteger>::spec_bits() == 128);
    }
}

impl Intern for InternHelper<87> {
    type UInt = u128;

    open spec fn spec_bits() -> nat {
        87
    }

    fn bits() -> (r: u32) {
        87
    }

    proof fn lemma_table() {
        assert(<u128 as UnsignedInteger>::spec_bits() == 128);
    }
}

impl Intern for InternHelper<88> {
    type UInt = u128;

    open spec fn spec_bits() -> nat {
        88
    }

    fn bits() -> (r: u32) {
        88
    }

    proof fn lemma_table() {
        assert(<u128 as UnsignedInteger>::spec_bits() == 128);
    }
}

impl Intern for InternHelper<89> {
    type UInt = u128;

    open spec fn spec_bits() -> nat {
        89
    }

    fn bits() -> (r: u32) {
        89
    }

    proof fn lemma_table() {
        assert(<u128 as UnsignedInteger>::spec_bits() == 128);
    }
}

impl Intern for InternHelper<90> {
    type UInt = u128;

    open spec fn spec_bits() -> nat {
        90
    }

    fn bits() -> (r: u32) {
        90
    }

    proof fn lemma_table() {
        assert(<u128 as UnsignedInteger>::spec_bits() == 128);
    }
}

impl Intern for InternHelper<91> {
    type UInt = u128;

    open spec fn spec_bits() -> nat {
        91
    }

    fn bits() -> (r: u32) {
        91
    }

    proof fn lemma_table() {
        assert(<u128 as UnsignedInteger>::spec_bits() == 128);
    }
}

impl Intern for InternHelper<92> {
    type UInt = u128;

    open spec fn spec_bits() -> nat {
        92
    }

    fn bits() -> (r: u32) {
        92
    }

    proof fn lemma_table() {
        assert(<u128 as UnsignedInteger>::spec_bits() == 128);
    }
}

impl Intern for InternHelper<93> {
    type UInt = u128;

    open spec fn spec_bits() -> nat {
        93
    }

    fn bits() -> (r: u32) {
        93
    }

    proof fn lemma_table() {
        assert(<u128 as UnsignedInteger>::spec_bits() == 128);
    }
}

impl Intern for InternHelper<94> {
    type UInt = u128;

    open spec fn spec_bits() -> nat {
        94
    }

    fn bits() -> (r: u32) {
        94
    }

    proof fn lemma_table() {
        assert(<u128 as UnsignedInteger>::spec_bits() == 128);
    }
}

impl Intern for InternHelper<95> {
    type UInt = u128;

    open spec fn spec_bits() -> nat {
        95
    }

    fn bits() -> (r: u32) {
        95
    }

    proof fn lemma_table() {
        assert(<u128 as UnsignedInteger>::spec_bits() == 128);
    }
}

impl Intern for InternHelper<96> {
    type UInt = u128;

    open spec fn spec_bits() -> nat {
        96
    }

    fn bits() -> (r: u32) {
        96
    }

    proof fn lemma_table() {
        assert(<u128 as UnsignedInteger>::spec_bits() == 128);
    }
}

impl Intern for InternHelper<97> {
    type UInt = u128;

    open spec fn spec_bits() -> nat {
        97
    }

    fn bits() -> (r: u32) {
        97
    }

    proof fn lemma_table() {
        assert(<u128 as UnsignedInteger>::spec_bits() == 128);
    }
}

impl Intern for InternHelper<98> {
    type UInt = u128;

    open spec fn spec_bits() -> nat {
        98
    }

    fn bits() -> (r: u32) {
        98
    }

    proof fn lemma_table() {
        assert(<u128 as UnsignedInteger>::spec_bits() == 128);
    }
}

impl Intern for InternHelper<99> {
    type UInt = u128;

    open spec fn spec_bits() -> nat {
        99
    }

    fn bits() -> (r: u32) {
        99
    }

    proof fn lemma_table() {
        assert(<u128 as UnsignedInteger>::spec_bits() == 128);
    }
}

impl Intern for InternHelper<100> {
    type UInt = u128;

    open spec fn spec_bits() -> nat {
        100
    }

    fn bits() -> (r: u32) {
        100
    }

    proof fn lemma_table() {
        assert(<u128 as UnsignedInteger>::spec_bits() == 128);
    }
}

impl Intern for InternHelper<101> {
    type UInt = u128;

    open spec fn spec_bits() -> nat {
        101
    }

    fn bits() -> (r: u32) {
        101
    }

    proof fn lemma_table() {
        assert(<u128 as UnsignedInteger>::spec_bits() == 128);
    }
}

impl Intern for InternHelper<102> {
    type UInt = u128;

    open spec fn spec_bits() -> nat {
        102
    }

    fn bits() -> (r: u32) {
        102
    }

    proof fn lemma_table() {
        assert(<u128 as UnsignedInteger>::spec_bits() == 128);
    }
}

impl Intern for InternHelper<103> {
    type UInt = u128;

    open spec fn spec_bits() -> nat {
        103
    }

    fn bits() -> (r: u32) {
        103
    }

    proof fn lemma_table() {
        assert(<u128 as UnsignedInteger>::spec_bits() == 128);
    }
}

impl Intern for InternHelper<104> {
    type UInt = u128;

    open spec fn spec_bits() -> nat {
        104
    }

    fn bits() -> (r: u32) {
        104
    }

    proof fn lemma_table() {
        assert(<u128 as UnsignedInteger>::spec_bits() == 128);
    }
}

impl Intern for InternHelper<105> {
    type UInt = u128;

    open spec fn spec_bits() -> nat {
        105
    }

    fn bits() -> (r: u32) {
        105
    }

    proof fn lemma_table() {
        assert(<u128 as UnsignedInteger>::spec_bits() == 128);
    }
}

impl Intern for InternHelper<106> {
    type UInt = u128;

    open spec fn spec_bits() -> nat {
        106
    }

    fn bits() -> (r: u32) {
        106
    }

    proof fn lemma_table() {
        assert(<u128 as UnsignedInteger>::spec_bits() == 128);
    }
}

impl Intern for InternHelper<107> {
    type UInt = u128;

    open spec fn spec_bits() -> nat {
        107
    }

    fn bits() -> (r: u32) {
        107
    }

    proof fn lemma_table() {
        assert(<u128 as UnsignedInteger>::spec_bits() == 128);
    }
}

impl Intern for InternHelper<108> {
    type UInt = u128;

    open spec fn spec_bits() -> nat {
        108
    }

    fn bits() -> (r: u32) {
        108
    }

    proof fn lemma_table() {
        assert(<u128 as UnsignedInteger>::spec_bits() == 128);
    }
}

impl Intern for InternHelper<109> {
    type UInt = u128;

    open spec fn spec_bits() -> nat {
        109
    }

    fn bits() -> (r: u32) {
        109
    }

    proof fn lemma_table() {
        assert(<u128 as UnsignedInteger>::spec_bits() == 128);
    }
}

impl Intern for InternHelper<110> {
    type UInt = u128;

    open spec fn spec_bits() -> nat {
        110
    }

    fn bits() -> (r: u32) {
        110
    }

    proof fn lemma_table() {
        assert(<u128 as UnsignedInteger>::spec_bits() == 128);
    }
}

impl Intern for InternHelper<111> {
    type UInt = u128;

    open spec fn spec_bits() -> nat {
        111
    }

    fn bits() -> (r: u32) {
        111
    }

    proof fn lemma_table() {
        assert(<u128 as UnsignedInteger>::spec_bits() == 128);
    }
}

impl Intern for InternHelper<112> {
    type UInt = u128;

    open spec fn spec_bits() -> nat {
        112
    }

    fn bits() -> (r: u32) {
        112
    }

    proof fn lemma_table() {
        assert(<u128 as UnsignedInteger>::spec_bits() == 128);
    }
}

impl Intern for InternHelper<113> {
    type UInt = u128;

    open spec fn spec_bits() -> nat {
        113
    }

    fn bits() -> (r: u32) {
        113
    }

    proof fn lemma_table() {
        assert(<u128 as UnsignedInteger>::spec_bits() == 128);
    }
}

impl Intern for InternHelper<114> {
    type UInt = u128;

    open spec fn spec_bits() -> nat {
        114
    }

    fn bits() -> (r: u32) {
        114
    }

    proof fn lemma_table() {
        assert(<u128 as UnsignedInteger>::spec_bits() == 128);
    }
}

impl Intern for InternHelper<115> {
    type UInt = u128;

    open spec fn spec_bits() -> nat {
        115
    }

    fn bits() -> (r: u32) {
        115
    }

    proof fn lemma_table() {
        assert(<u128 as UnsignedInteger>::spec_bits() == 128);
    }
}

impl Intern for InternHelper<116> {
    type UInt = u128;

    open spec fn spec_bits() -> nat {
        116
    }

    fn bits() -> (r: u32) {
        116
    }

    proof fn lemma_table() {
        assert(<u128 as UnsignedInteger>::spec_bits() == 128);
    }
}

impl Intern for InternHelper<117> {
    type UInt = u128;

    open spec fn spec_bits() -> nat {
        117
    }

    fn bits() -> (r: u32) {
        117
    }

    proof fn lemma_table() {
        assert(<u128 as UnsignedInteger>::spec_bits() == 128);
    }
}

impl Intern for InternHelper<118> {
    type UInt = u128;

    open spec fn spec_bits() -> nat {
        118
    }

    fn bits() -> (r: u32) {
        118
    }

    proof fn lemma_table() {
        assert(<u128 as UnsignedInteger>::spec_bits() == 128);
    }
}

impl Intern for InternHelper<119> {
    type UInt = u128;

    open spec fn spec_bits() -> nat {
        119
    }

    fn bits() -> (r: u32) {
        119
    }

    proof fn lemma_table() {
        assert(<u128 as UnsignedInteger>::spec_bits() == 128);
    }
}

impl Intern for InternHelper<120> {
    type UInt = u128;

    open spec fn spec_bits() -> nat {
        120
    }

    fn bits() -> (r: u32) {
        120
    }

    proof fn lemma_table() {
        assert(<u128 as UnsignedInteger>::spec_bits() == 128);
    }
}

impl Intern for InternHelper<121> {
    type UInt = u128;

    open spec fn spec_bits() -> nat {
        121
    }

    fn bits() -> (r: u32) {
        121
    }

    proof fn lemma_table() {
        assert(<u128 as UnsignedInteger>::spec_bits() == 128);
    }
}

impl Intern for InternHelper<122> {
    type UInt = u128;

    open spec fn spec_bits() -> nat {
        122
    }

    fn bits() -> (r: u32) {
        122
    }

    proof fn lemma_table() {
        assert(<u128 as UnsignedInteger>::spec_bits() == 128);
    }
}

impl Intern for InternHelper<123> {
    type UInt = u128;

    open spec fn spec_bits() -> nat {
        123
    }

    fn bits() -> (r: u32) {
        123
    }

    proof fn lemma_table() {
        assert(<u128 as UnsignedInteger>::spec_bits() == 128);
    }
}

impl Intern for InternHelper<124> {
    type UInt = u128;

    open spec fn spec_bits() -> nat {
        124
    }

    fn bits() -> (r: u32) {
        124
    }

    proof fn lemma_table() {
        assert(<u128 as UnsignedInteger>::spec_bits() == 128);
    }
}

impl Intern for InternHelper<125> {
    type UInt = u128;

    open spec fn spec_bits() -> nat {
        125
    }

    fn bits() -> (r: u32) {
        125
    }

    proof fn lemma_table() {
        assert(<u128 as UnsignedInteger>::spec_bits() == 128);
    }
}

impl Intern for InternHelper<126> {
    type UInt = u128;

    open spec fn spec_bits() -> nat {
        126
    }

    fn bits() -> (r: u32) {
        126
    }

    proof fn lemma_table() {
        assert(<u128 as UnsignedInteger>::spec_bits() == 128);
    }
}

impl Intern for InternHelper<127> {
    type UInt = u128;

    open spec fn spec_bits() -> nat {
        127
    }

    fn bits() -> (r: u32) {
        127
    }

    proof fn lemma_table() {
        assert(<u128 as UnsignedInteger>::spec_bits() == 128);
    }
}

impl Intern for InternHelper<128> {
    type UInt = u128;

    open spec fn spec_bits() -> nat {
        128
    }

    fn bits() -> (r: u32) {
        128
    }

    proof fn lemma_table() {
        assert(<u128 as UnsignedInteger>::spec_bits() == 128);
    }
}

} // verus!
