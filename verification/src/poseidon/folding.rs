//! The keys in compressed form are what folding gives.
//!
//! A partial round cubes the last element of the state only, so the keys
//! that it adds to the other two can be put off: they pass through the
//! matrix unchanged in kind, and are added with the keys of the next round.
//! What is put off before partial round `i` is [`deferred`]`(i)`. The key of
//! a partial round in compressed form is its key for the last element and
//! what was put off for that element; the first full round after the partial
//! rounds takes up all that is left.
//!
//! The lemmas of this file check the tables against that, key by key.
use crate::field::{field_add, join, lemma_prime, prime};
use crate::poseidon::keys::{
    COMPRESSED_KEYS_HIGH, COMPRESSED_KEYS_LOW, ROUND_KEYS_HIGH, ROUND_KEYS_LOW,
};
use crate::poseidon::{compressed_key, mixed, round_key, Lanes};
use vstd::arithmetic::div_mod::lemma_fundamental_div_mod_converse;
use vstd::prelude::*;

verus! {

/// What the partial rounds before partial round `i` have put off.
pub open spec fn deferred(i: nat) -> Lanes
    decreases i,
{
    if i == 0 {
        Lanes { a: 0, b: 0, c: 0 }
    } else {
        let d = deferred((i - 1) as nat);
        let k = 12 + 3 * (i - 1);
        mixed(Lanes { a: field_add(d.a, round_key(k)), b: field_add(d.b, round_key(k + 1)), c: 0 })
    }
}

/// The remainder of `x` modulo the prime is `x - q * prime()`, where that is
/// below the prime and not negative.
proof fn lemma_remainder(x: int, q: int)
    requires
        0 <= x - q * prime() < prime(),
    ensures
        x % (prime() as int) == x - q * prime(),
{
    lemma_fundamental_div_mod_converse(x, prime() as int, q, x - q * prime());
}

/// Key `k` of the rounds is the number whose halves are `high` and `low`.
proof fn lemma_round_key(k: int, high: u128, low: u128)
    requires
        0 <= k < 273,
        ROUND_KEYS_HIGH@[k] == high,
        ROUND_KEYS_LOW@[k] == low,
        join(high, low) < prime(),
    ensures
        round_key(k) == join(high, low),
{
    lemma_remainder(join(high, low) as int, 0);
}

/// Key `k` in compressed form is the number whose halves are `high` and `low`.
proof fn lemma_compressed_key(k: int, high: u128, low: u128)
    requires
        0 <= k < 107,
        COMPRESSED_KEYS_HIGH@[k] == high,
        COMPRESSED_KEYS_LOW@[k] == low,
        join(high, low) < prime(),
    ensures
        compressed_key(k) == join(high, low),
{
    lemma_remainder(join(high, low) as int, 0);
}

/// The remainders that one step of folding takes, each by its quotient.
pub open spec fn folds(d: Lanes, k: (nat, nat), q: (int, int, int, int, int)) -> Lanes {
    let a = d.a + k.0 - q.0 * prime();
    let b = d.b + k.1 - q.1 * prime();
    Lanes {
        a: (3 * a + b - q.2 * prime()) as nat,
        b: (a - b - q.3 * prime()) as nat,
        c: (a + b - q.4 * prime()) as nat,
    }
}

/// One step of folding, with the quotients that show each remainder.
proof fn lemma_deferred_step(i: int, q: (int, int, int, int, int))
    requires
        i > 0,
        ({
            let d = deferred((i - 1) as nat);
            let k = (round_key(12 + 3 * (i - 1)), round_key(12 + 3 * (i - 1) + 1));
            let a = d.a + k.0 - q.0 * prime();
            let b = d.b + k.1 - q.1 * prime();
            &&& 0 <= a < prime()
            &&& 0 <= b < prime()
            &&& 0 <= 3 * a + b - q.2 * prime() < prime()
            &&& 0 <= a - b - q.3 * prime() < prime()
            &&& 0 <= a + b - q.4 * prime() < prime()
        }),
    ensures
        deferred(i as nat) == folds(
            deferred((i - 1) as nat),
            (round_key(12 + 3 * (i - 1)), round_key(12 + 3 * (i - 1) + 1)),
            q,
        ),
{
    let d = deferred((i - 1) as nat);
    let k = (round_key(12 + 3 * (i - 1)), round_key(12 + 3 * (i - 1) + 1));
    let a = d.a + k.0 - q.0 * prime();
    let b = d.b + k.1 - q.1 * prime();
    lemma_remainder((d.a + k.0) as int, q.0);
    lemma_remainder((d.b + k.1) as int, q.1);
    lemma_remainder(3 * a + b + 0, q.2);
    lemma_remainder(a - b + 0, q.3);
    lemma_remainder(a + b - 2 * 0, q.4);
}

/// The key of a partial round in compressed form takes up what was put off
/// for the last element.
proof fn lemma_folded_key(i: int, q: int)
    requires
        0 <= i,
        compressed_key(12 + i) == deferred(i as nat).c + round_key(12 + 3 * i + 2) - q * prime(),
        compressed_key(12 + i) < prime(),
    ensures
        compressed_key(12 + i) == field_add(deferred(i as nat).c, round_key(12 + 3 * i + 2)),
{
    lemma_remainder((deferred(i as nat).c + round_key(12 + 3 * i + 2)) as int, q);
}

/// What is put off before partial round 0, and the key of that round in
/// compressed form.
proof fn lemma_deferred_0()
    ensures
        deferred(0) == (Lanes {
            a: 0x0nat,
            b: 0x0nat,
            c: 0x0nat,
        }),
        compressed_key(12) == field_add(deferred(0).c, round_key(14)),
{
    lemma_prime();
    lemma_round_key(14, 0x4b085eb1df4258c3453cc97445954bf, 0x3433b6ab9dd5a99592864c00f54a3f9a);
    lemma_compressed_key(12, 0x4b085eb1df4258c3453cc97445954bf, 0x3433b6ab9dd5a99592864c00f54a3f9a);
    lemma_folded_key(0, 0);
}

/// What is put off before partial round 1, and the key of that round in
/// compressed form.
proof fn lemma_deferred_1()
    ensures
        deferred(1) == (Lanes {
            a: 0x20bda737be6a385a08bcda0b3fa4510a306af64ae25f777f39510183b1e20e7nat,
            b: 0x336cd1589f29ed2fd00a58afee44d9d774bfe231abbee4a6cbce98f3b2975a3nat,
            c: 0x76a86aef8fa026a51c5940ada8afbb995dd58a0c9b50496c36c13447ffa55a3nat,
        }),
        compressed_key(13) == field_add(deferred(1).c, round_key(17)),
{
    lemma_prime();
    lemma_deferred_0();
    lemma_round_key(12, 0x550a9e24176509ea7631ccaecb7a4ab, 0x8694ab61f238797098147e69dd91e5a3);
    lemma_round_key(13, 0x219dcccb783b1cbaa62773fedd3570e, 0xf48ad3ed77c8b262b5794daa2687000);
    lemma_deferred_step(1, (0, 0, 2, 0, 0));
    lemma_round_key(17, 0x7c74922a456802c44997e959f27a5b0, 0x6820b1ed97596a969939c46c162517f4);
    lemma_compressed_key(13, 0x731cfd19d508285965f12a079b2a169, 0xfdfe0a8e610e6f2d5ca5d7b0961f6d96);
    lemma_folded_key(1, 1);
}

/// What is put off before partial round 2, and the key of that round in
/// compressed form.
proof fn lemma_deferred_2()
    ensures
        deferred(2) == (Lanes {
            a: 0x6e00077af7a2ebeab4d99465e7ddba86a7361c9a98fc968e503e06c5f458ba4nat,
            b: 0x649939069219076c2ac9a2c80fbbc438ac0c0b05035c64274b8812df7e1d62anat,
            c: 0x4b3673a32c4f23f4507f8ceec10fb26fd9508cacad01933825af9f33b1dabdnat,
        }),
        compressed_key(14) == field_add(deferred(2).c, round_key(20)),
{
    lemma_prime();
    lemma_deferred_1();
    lemma_round_key(15, 0x53e8a8e8a404c503af2bf3c03e420ea, 0x5a465939d04b6c72e2da084e5aabb78d);
    lemma_round_key(16, 0x5ca045c1312c09d1bd14d2537fe5c19, 0xfb4049cb137faf5df4f9ada962be8ca8);
    lemma_deferred_step(2, (0, 1, 2, 0, 1));
    lemma_round_key(20, 0x1cc9a17b00d3607d81efaea5a75a434, 0xbef44d92edc6d5b0bfe1ec7f01d613ed);
    lemma_compressed_key(14, 0x217d08b5339852bcc6f7a774936b3e7, 0x2ecd9e1f9a73d743f8079c1e3587eeaa);
    lemma_folded_key(2, 0);
}

/// What is put off before partial round 3, and the key of that round in
/// compressed form.
proof fn lemma_deferred_3()
    ensures
        deferred(3) == (Lanes {
            a: 0x17e33b5fbfb9093df7d5c98fdeda35a62b844a77a0740b9c1514b8d57aa3519nat,
            b: 0x504bcc2e221e3d57d8d2a98ceef6c87105eeb031091a5f749da0a8b1356da70nat,
            c: 0x23cbb798cecd667b0f81900177f1b69a92cacd234bacd613bbba0812229ad55nat,
        }),
        compressed_key(15) == field_add(deferred(3).c, round_key(23)),
{
    lemma_prime();
    lemma_deferred_2();
    lemma_round_key(18, 0xc0bba6880d2e686bf5088614b9684f, 0xf2526a20f91670435dc6f519bb7ab83f);
    lemma_round_key(19, 0x4526bcaec43e8ebd708dd07234c1b2d, 0xc1a6203741decd72843849cd0f87934a);
    lemma_deferred_step(3, (0, 1, 3, 0, 1));
    lemma_round_key(23, 0x5cfd7e44946daa6b2618213b0d1bf4a, 0x2269bed2dc0d4dbf59e285eee627df1a);
    lemma_compressed_key(15, 0xc935dd633b0fd63599b13c850dab3, 0xcb966ba510c81b20959e267008518c6e);
    lemma_folded_key(3, 1);
}

/// What is put off before partial round 4, and the key of that round in
/// compressed form.
proof fn lemma_deferred_4()
    ensures
        deferred(4) == (Lanes {
            a: 0x24608030b43edc719f0b7a85058145ea6375f3f25370086c9758e9bda493a3nat,
            b: 0x67735e1661b347357009a591df3fc97282b66bd8093ce42c7cca7df98a8013dnat,
            c: 0x4d6954f654c85458d4f3890b388c257611c079b38dfd0e2d2655885127e4934nat,
        }),
        compressed_key(16) == field_add(deferred(4).c, round_key(26)),
{
    lemma_prime();
    lemma_deferred_3();
    lemma_round_key(21, 0x28b1e269b84c4012aa8cdbead0bc1c, 0xe1eb7284e2b28ed90bc7b4a4fde8f01f);
    lemma_round_key(22, 0x62af2f41d76c4ad1d9a2482fbdaf659, 0xc19656bcb945b58bb724dc7a994498d);
    lemma_deferred_step(4, (0, 1, 1, -1, 0));
    lemma_round_key(26, 0x5463841390e22d60c946418bf0e582, 0x2bd999084e30688e741a90bbd53a698a);
    lemma_compressed_key(16, 0x52af8d378dd6772ee187ed23f79a7d9, 0x8cf5a0a387103971467fe940e7b8b2be);
    lemma_folded_key(4, 0);
}

/// What is put off before partial round 5, and the key of that round in
/// compressed form.
proof fn lemma_deferred_5()
    ensures
        deferred(5) == (Lanes {
            a: 0x4aefbbf9727361f34c03da020e27b26ff9ff04aa47bf1c0f210fd208e984493nat,
            b: 0x3df322e2f768540edb3372f29d6d8dfe5fa3233a12c80cfccb1bdf87614a712nat,
            c: 0x467e4c8b3d85877a38683387b85d1238cd2df0b81a7b87892af9f940c41cec1nat,
        }),
        compressed_key(17) == field_add(deferred(5).c, round_key(29)),
{
    lemma_prime();
    lemma_deferred_4();
    lemma_round_key(24, 0x7ff2afb40f3300856fdd1b94da8d3bb, 0xcf0312ab9f16ac9bc31955dc8386a747);
    lemma_round_key(25, 0x5cd236bdc15b54183e90bab8ae37f8a, 0xab40efae6fa9cd919b3248ee326e929c);
    lemma_deferred_step(5, (1, 1, 0, -1, 0));
    lemma_round_key(29, 0x62ca053e4da0fc87b430e53238d2bab, 0x1d9b499c35f375d7d0b32e1189b6dcb5);
    lemma_compressed_key(17, 0x294851c98b2682f1ec9918b9f12fcce, 0xaa6e28a7b79b2e506362cda595f8ab75);
    lemma_folded_key(5, 1);
}

/// What is put off before partial round 6, and the key of that round in
/// compressed form.
proof fn lemma_deferred_6()
    ensures
        deferred(6) == (Lanes {
            a: 0x5b6ee4d6de454ec2fc2dc5087a43bb5770e75c25f5ce53ba920e861275ca22cnat,
            b: 0x63750f0ebb826916b46967fa91b76b883665dfbc6f5248227bea92298185032nat,
            c: 0x7bfceae4116173e623e22e86f44627e79d40be34c33e05cc0b11f9f47a228fenat,
        }),
        compressed_key(18) == field_add(deferred(6).c, round_key(32)),
{
    lemma_prime();
    lemma_deferred_5();
    lemma_round_key(27, 0x24c940fff3fe8c8b2021f13eb4d7174, 0x7efd44a4e51890ae8226e7406144f805);
    lemma_round_key(28, 0x4e50cb07b3873268dc88f05393d9d03, 0x153ca4c02172dd1d7fc77d45e1b04555);
    lemma_deferred_step(6, (0, 1, 2, 0, 0));
    lemma_round_key(32, 0x15b8aeaca96ab53200eed38d248ecda, 0x23d4b71d17133438015391ca63663767);
    lemma_compressed_key(18, 0x11b59990bacc280824d1021418d4f58, 0x9da8c30063471494c204b169ab086064);
    lemma_folded_key(6, 1);
}

/// What is put off before partial round 7, and the key of that round in
/// compressed form.
proof fn lemma_deferred_7()
    ensures
        deferred(7) == (Lanes {
            a: 0x40e4e9f6eb720b765eca96f22056639764b0705cffeb62d7b08bcf243fe1460nat,
            b: 0x73532c15f4ead9704ecc755ddd2792ccd24f443d8f4c4577deae1874f6cba8fnat,
            c: 0x26c8def07b43998b07ff10ca219768654930960fb84f8eafe8eedb57a48ace9nat,
        }),
        compressed_key(19) == field_add(deferred(7).c, round_key(35)),
{
    lemma_prime();
    lemma_deferred_6();
    lemma_round_key(30, 0x719f20ac59d1ebcaaf37fe0b851bc24, 0x19cd89100adff965951bff3d3d7e1191);
    lemma_round_key(31, 0x7645ca5e87a9f916a82fe5bb90807f4, 0x4050ac92ca52f5c798935cf47d55a8fd);
    lemma_deferred_step(7, (1, 1, 2, -1, 1));
    lemma_round_key(35, 0x2485167dc233ba6e1161c4d0bf02515, 0x9699dd2feb36e3e5b70ae6e770e22081);
    lemma_compressed_key(19, 0x4b4df56e3d7753f91960d59ae099b9b, 0xeb2ce690e6bbdcd0b599d49ceb2acd6a);
    lemma_folded_key(7, 0);
}

/// What is put off before partial round 8, and the key of that round in
/// compressed form.
proof fn lemma_deferred_8()
    ensures
        deferred(8) == (Lanes {
            a: 0x6eb3b3ce2b5c6a4fd2e7d1a0d6d07d7f0c81b8cc5387027ec5dbe848d773d71nat,
            b: 0x29d6477c750aef2448d7466934d3c1cce82682e9ea70b945acc0ea77ec3df96nat,
            c: 0x626eb628db28be1dc508459bd0fe5dd9122d9af1348b249c8c8d7ee8759aeeenat,
        }),
        compressed_key(20) == field_add(deferred(8).c, round_key(38)),
{
    lemma_prime();
    lemma_deferred_7();
    lemma_round_key(33, 0x53d94dbbca7cb2aa8252f106292ac3, 0xb98799e908f928c196c1b658bf10b2e2);
    lemma_round_key(34, 0x28f90b403e240f1c6f4c0a3b70edbb3, 0x942b447c615c0f033913831c34de2d1e);
    lemma_deferred_step(8, (0, 1, 1, 0, 0));
    lemma_round_key(38, 0x238019787f4cc0b627a65a21bef2106, 0xd5015b85dfbd77b2965418b02dbc6bd7);
    lemma_compressed_key(20, 0x5eecfa15a757dc3ecae9fbd8ff06e4, 0x66243534f30629fc5f1cf09eb5161ac4);
    lemma_folded_key(8, 1);
}

/// What is put off before partial round 9, and the key of that round in
/// compressed form.
proof fn lemma_deferred_9()
    ensures
        deferred(9) == (Lanes {
            a: 0x5beeb8d7eb0f2e7a149fa078934c469483f01cb44abc61aa9941d0d48b414bcnat,
            b: 0x510c3904f81e09551678f81fcf6a49c9ec16313078c14e8acc45eee6cdb7ca5nat,
            c: 0x45713fe97978931a7f13542c61f0fe654becf5c1e8fd898fe67df0f6dec4c0cnat,
        }),
        compressed_key(21) == field_add(deferred(9).c, round_key(41)),
{
    lemma_prime();
    lemma_deferred_8();
    lemma_round_key(36, 0x1c8b08a90d6ee46ff7de548541dd269, 0x88f7fdaacdd58698e938607a5feca6e8);
    lemma_round_key(37, 0x105c3bf5cba256466b75e79d146f988, 0xc7c4df5ecdad643ce05b16901c4881e);
    lemma_deferred_step(9, (1, 0, 0, -1, 0));
    lemma_round_key(41, 0x229abdef3fef7ae9e67ed336e82dc6c, 0x2e26d872d98b3cce811c69ae363b444d);
    lemma_compressed_key(21, 0x680bfdd8b9680e04659227634a1ec52, 0x82e5a7cef81b15677f8448bda4279059);
    lemma_folded_key(9, 0);
}

/// What is put off before partial round 10, and the key of that round in
/// compressed form.
proof fn lemma_deferred_10()
    ensures
        deferred(10) == (Lanes {
            a: 0x3c15acd4cee7f3506aa86c37f7cdec55cbb6fd8d4ec393d2c2fee121111682nat,
            b: 0x43921bf0058db5f11b4785884a474d23b8724e737661f1fbd4867ba9d3653efnat,
            c: 0x20179f6ea3b06529f5b1809d9a9ac8d0d22490b2af4523a0abd4b9341ed614anat,
        }),
        compressed_key(22) == field_add(deferred(10).c, round_key(44)),
{
    lemma_prime();
    lemma_deferred_9();
    lemma_round_key(39, 0x15e624d7698fdf9b73dce29a5f24c46, 0x5c15b52dec8172923a6ebc99a6ddc5e1);
    lemma_round_key(40, 0x5d3688ba56f34fdf56bc056ad8bf740, 0xca0c2efef23b04a479f612fde5800a0a);
    lemma_deferred_step(10, (0, 1, 3, 0, 1));
    lemma_round_key(44, 0x7cf4598c0cf143875877afdbb4df679, 0x4ef597fff1f98557adca32046aeaef0a);
    lemma_compressed_key(22, 0x1d0bf8fab0a1a7a14e2930794f7a306, 0x5c17e10b1cedd791b8877d97acd85053);
    lemma_folded_key(10, 1);
}

/// What is put off before partial round 11, and the key of that round in
/// compressed form.
proof fn lemma_deferred_11()
    ensures
        deferred(11) == (Lanes {
            a: 0x452defe55366cf8de41e9fccb5c955d3bdece8895f5ab4c3cc2488941dc1fc1nat,
            b: 0x43d9d703d346a4f1c68d7baaa3f300ae66101e66e6a1061bfad1ec692594db2nat,
            c: 0x40aa0c70c01015d60ec8921108eb2a92abee65113c5cd753e8a94e157c16908nat,
        }),
        compressed_key(23) == field_add(deferred(11).c, round_key(47)),
{
    lemma_prime();
    lemma_deferred_10();
    lemma_round_key(42, 0x3e8096ecfcbcde2ee400801a56f236d, 0xb2c43d1e33c92b57ac58daf2d3fc44db);
    lemma_round_key(43, 0x3ad5fec670d7039108d605aae834c7c, 0xe6a7cd4e1b47bf6a02265352c57db9bd);
    lemma_deferred_step(11, (0, 0, 2, -1, 1));
    lemma_round_key(47, 0x6b82800937f8981f3cd974f43322169, 0x963d2b54fd2b7ed348dc6cc226718b5d);
    lemma_compressed_key(23, 0x2c2c8c79f808ace54ba207053c0d412, 0xc0fc11a610f14c48876701a37e32f464);
    lemma_folded_key(11, 1);
}

/// What is put off before partial round 12, and the key of that round in
/// compressed form.
proof fn lemma_deferred_12()
    ensures
        deferred(12) == (Lanes {
            a: 0x12eb56343c290bfea76a1b04f44ad44433ef46e93fda72bc0297fd3290097d3nat,
            b: 0x64879963184772cb7c577751acbf4e9b1ff5394cbd4d8705b1ac0d66d701285nat,
            c: 0x5731de6891f0cda9958951d9a3c5c2d489fd06ce414675db2875f7e5dc842a8nat,
        }),
        compressed_key(24) == field_add(deferred(12).c, round_key(50)),
{
    lemma_prime();
    lemma_deferred_11();
    lemma_round_key(45, 0x58aecc0081b55134a4d1c4c8f27932e, 0x4170c37841fef49aca0ec7a123c00ad6);
    lemma_round_key(46, 0x757b4b7ee98e0a15460b71995790396, 0xe4ef3c859db5b714ec09308d65d2ca61);
    lemma_deferred_step(12, (1, 1, 1, -1, 0));
    lemma_round_key(50, 0x5e1ceb846fe1422b9524c7d01493107, 0x2c3852df2d991470b08375edf6e762bb);
    lemma_compressed_key(24, 0x354ec9ed01d20ec52aae19a9b858d34, 0x74d8234c11ad7bce630ad56c54afa562);
    lemma_folded_key(12, 1);
}

/// What is put off before partial round 13, and the key of that round in
/// compressed form.
proof fn lemma_deferred_13()
    ensures
        deferred(13) == (Lanes {
            a: 0x7cf49c302a27af6caacd8269b3d70c21d46653f5945d4d6573b54cb5e49ab18nat,
            b: 0x5d5d1366cb989e3ac37a76d5014324170c9317d1aac337e2b177d19723325c5nat,
            c: 0x4fcbc464af478920f3a985ca5949f40563e99e11f4cd0ac1611ebd8f60b42aanat,
        }),
        compressed_key(25) == field_add(deferred(13).c, round_key(53)),
{
    lemma_prime();
    lemma_deferred_12();
    lemma_round_key(48, 0x3a915b1814707273427e34ab8fbb7c, 0xa044f14088fedae9606b34a60b1e9c64);
    lemma_round_key(49, 0x54afbf1bd990043f9bc01028ff44195, 0xc0bb609d367b76269a627689547bfbef);
    lemma_deferred_step(13, (0, 1, 0, -1, 0));
    lemma_round_key(53, 0x61135c9846faf39b4511d74fe8de8b4, 0x8dd4d0e469d6703d7ed4fe4fe8e0dbac);
    lemma_compressed_key(25, 0x30df20fcf6427bac38bb5d1a42287f4, 0xe4136ac5892340e994e6ea28deec1e55);
    lemma_folded_key(13, 1);
}

/// What is put off before partial round 14, and the key of that round in
/// compressed form.
proof fn lemma_deferred_14()
    ensures
        deferred(14) == (Lanes {
            a: 0x990fd05718da074389adf9314c2fe9ca962b7d239220dd46a757a08949bccbnat,
            b: 0x6815f21d9119617e0a1af94bd63c6030445e1b165113aadc2f20293eadef4banat,
            c: 0x10bd8573f03a2003173ff3239f434f3632824e5df407317c1daaa864f356409nat,
        }),
        compressed_key(26) == field_add(deferred(14).c, round_key(56)),
{
    lemma_prime();
    lemma_deferred_13();
    lemma_round_key(51, 0x7f751f98968212ebe5dff3ce06e8cb9, 0x16709e0c48e3020c6b2b01c1bec0814b);
    lemma_round_key(52, 0x36f6b64463f7c29fc3180616e340536, 0xbea7f01d226b68b6d45cd6dfbff811e4);
    lemma_deferred_step(14, (1, 1, 3, 0, 1));
    lemma_round_key(56, 0x41cf6db5d6145edfeccbbc9a50b2cee, 0xdeb1765c61516ffcb112f810ad67036f);
    lemma_compressed_key(26, 0x528cf329c64e7ee3040bafbdeff61e2, 0x41d99b424091e31472eda296fc9c6778);
    lemma_folded_key(14, 0);
}

/// What is put off before partial round 15, and the key of that round in
/// compressed form.
proof fn lemma_deferred_15()
    ensures
        deferred(15) == (Lanes {
            a: 0x4977982272c2bb17236d322833f5c6c73557479499ac2be846a944334427e60nat,
            b: 0xa2ea45c526ab4102ce226d811bcbc149ed48acfcd94e00951d8080f008bfacnat,
            c: 0x1fa479e3102c03837b4585a8111c85594b415e62660ba5ef7a689e1221cdf5anat,
        }),
        compressed_key(27) == field_add(deferred(15).c, round_key(59)),
{
    lemma_prime();
    lemma_deferred_14();
    lemma_round_key(54, 0xb58921a3fbdbb559b78f6acfca9a21, 0xa4ba83cc6e0ae3527fbaad907fc912b8);
    lemma_round_key(55, 0x22a4f8a5cdc7474b9d16b61c2973847, 0x211d84eb2fb27b816e52821c2e2b1b1e);
    lemma_deferred_step(15, (0, 1, 0, 0, 0));
    lemma_round_key(59, 0x209cf541e5f74fc2b93310b8ce37b09, 0x2a58282643860b5707c7eb980ea03a06);
    lemma_compressed_key(27, 0x40416f24f623534634789660df5435e, 0xbf0c3e0c69e6c5b5ff6e757930bd1960);
    lemma_folded_key(15, 0);
}

/// What is put off before partial round 16, and the key of that round in
/// compressed form.
proof fn lemma_deferred_16()
    ensures
        deferred(16) == (Lanes {
            a: 0x440160fcbe7d79614f07b6909e2afc31640601544dc98537df9e3008ad087e8nat,
            b: 0x116e19b369843ba27dae90b404673ad68bdb19bd9794fb94b57e6514be7125anat,
            c: 0x1949a3a4aa7c9edf68ac92ee4ce1e0ad6c1573cb5b1a44d1950fe579f74bac7nat,
        }),
        compressed_key(28) == field_add(deferred(16).c, round_key(62)),
{
    lemma_prime();
    lemma_deferred_15();
    lemma_round_key(57, 0xbe44689973db2b1cfc05fa8f4aec6f, 0xac6a0ff2fdfab744ade9de11416b6831);
    lemma_round_key(58, 0x39bf209c4e117e16489cda45128096d, 0x6d148a237142dc4951df0b8239be148b);
    lemma_deferred_step(16, (0, 0, 2, 0, 1));
    lemma_round_key(62, 0x6a3725548c664fd06bdc1b4d5f9bed8, 0x3ef8ca7468d68f4fbbf345de2d552f72);
    lemma_compressed_key(28, 0x380c8f936e2ed9fd488ae3bac7dce3, 0x15ba21b11e88339cd5444435ccc9ea38);
    lemma_folded_key(16, 1);
}

/// What is put off before partial round 17, and the key of that round in
/// compressed form.
proof fn lemma_deferred_17()
    ensures
        deferred(17) == (Lanes {
            a: 0x205cd803da66bc0e80795dee3c74d4da4bb11cceb71663cd0bca199babbcde4nat,
            b: 0x1d01656f375c5fa9b2addf3ddca4ca87d11f310c9c1d65757b65fd45adb1b6bnat,
            c: 0x41adb94a51852eba66e5bf582fe805293d48f5e10d7c7f2bc8320e2aff0593dnat,
        }),
        compressed_key(29) == field_add(deferred(17).c, round_key(65)),
{
    lemma_prime();
    lemma_deferred_16();
    lemma_round_key(60, 0x6b562e6005f34ee0bdc218ba681b6ba, 0x7232e122287036d18c22dd5afa95326d);
    lemma_round_key(61, 0xe8103a23902be5dc6d5f59253a627, 0xa2a39c8aca11a914670e7a35dea38c8f);
    lemma_deferred_step(17, (1, 0, 1, 0, 0));
    lemma_round_key(65, 0x5b173c8b0eb7e9c4b3a874eb6307cda, 0x6fd875e3725061df895dc1466f350239);
    lemma_compressed_key(29, 0x1cc4f5d5603d176f1a8e344392efd2d, 0x3ad0541832829d245e0e2291f255b75);
    lemma_folded_key(17, 1);
}

/// What is put off before partial round 18, and the key of that round in
/// compressed form.
proof fn lemma_deferred_18()
    ensures
        deferred(18) == (Lanes {
            a: 0x5c22bddcecc7818b4ce44e2aca705c4ca747306e9eb55114b8cc065790333a9nat,
            b: 0x4543fc984e9f0f16cc44e9f862960ee0f0944574c551790c88498bd73952cc0nat,
            c: 0x4b6f60a24f1439c2404fb21933ed26b5db59757cecb1ec0418413d402b70375nat,
        }),
        compressed_key(30) == field_add(deferred(18).c, round_key(68)),
{
    lemma_prime();
    lemma_deferred_17();
    lemma_round_key(63, 0x67fcd6997472e8e605d0f01a8eccc5f, 0x11a45c0aa21eb4ebb447b4af006a4a37);
    lemma_round_key(64, 0x26144c95c8de3634075784d28c06c16, 0x2a44366f77792d4064c95db6ecb5cff0);
    lemma_deferred_step(18, (1, 0, 0, -1, 0));
    lemma_round_key(68, 0xbb930d8a6c6583713435ec06b6fed7, 0x825c3f71114acb93e240eed6970993dd);
    lemma_compressed_key(30, 0x5728917af5da91f9539310d99f5d142, 0xe011d6c8e015ea5423c502aa99c09752);
    lemma_folded_key(18, 0);
}

/// What is put off before partial round 19, and the key of that round in
/// compressed form.
proof fn lemma_deferred_19()
    ensures
        deferred(19) == (Lanes {
            a: 0x21b83872964d2d8bbcf03a31f43d1d44ab65cf23120dacb4a9b7976f484d8efnat,
            b: 0x474374c096fbfa236559192e59f9385f03f51090b56dc52bfd40db5fedd2d1bnat,
            c: 0x6d3a61d8ffa89ac42bcb9081cd21f272d3b85f492e4ff3c4563b5e07ad3d5ebnat,
        }),
        compressed_key(31) == field_add(deferred(19).c, round_key(71)),
{
    lemma_prime();
    lemma_deferred_18();
    lemma_round_key(66, 0x7e1c2d6fde8ac9f87bae06ad491d391, 0xc448f877e53298b6370f2165c3d54ddb);
    lemma_round_key(67, 0x4db779f3e5b7424996f451b156fe4e2, 0x8f74d61e7771f9e3fa433b57ca6627a9);
    lemma_deferred_step(19, (1, 1, 2, 0, 0));
    lemma_round_key(71, 0x21c0e3319ede47f0425dc9b2c1ed30e, 0x6356cb133e97579b822548eb9c4dc4b7);
    lemma_compressed_key(31, 0xefb450a9e86e1a46e295a348f0f235, 0x90925107d17c56d7c788fecc17219aa1);
    lemma_folded_key(19, 1);
}

/// What is put off before partial round 20, and the key of that round in
/// compressed form.
proof fn lemma_deferred_20()
    ensures
        deferred(20) == (Lanes {
            a: 0x756e66cdb262b038cec53c07efa57e8ff2a6ceb787f737e6a24b7019ac8bf74nat,
            b: 0x233dd7e947935d4be70d4c64870dcbe92fd88fd9f1068b4e7ee8d4a4904c282nat,
            c: 0x291847723567a97673dbf7d1b44bd95361671f6ecb78564c11b14dba8e1fe79nat,
        }),
        compressed_key(32) == field_add(deferred(20).c, round_key(74)),
{
    lemma_prime();
    lemma_deferred_19();
    lemma_round_key(69, 0x4472d73b2830565d708467e9296fb55, 0x99d3a08814c31c4189e9579c046e878f);
    lemma_round_key(70, 0x7ba9c303dfee2d89e10e3c883ca5ce5, 0x614d23739b7cb2052cc23612b11170e2);
    lemma_deferred_step(20, (0, 1, 2, 0, 1));
    lemma_round_key(74, 0x77088fdb015c7947a6265e44fef6f72, 0x4ea28ae28b26e6eee5a751b7ce6bcc21);
    lemma_compressed_key(32, 0x2020d74d36c421ae1a025616b342d07, 0x84b8fcd977de6c53a6c26693774dca99);
    lemma_folded_key(20, 1);
}

/// What is put off before partial round 21, and the key of that round in
/// compressed form.
proof fn lemma_deferred_21()
    ensures
        deferred(21) == (Lanes {
            a: 0x653fd1167b529a9908ce07b788b4f3b850992ed48dd316c86d2db7e2e01ee74nat,
            b: 0x246f4e6ec77b99581e6d3548916b88d43350eb7acf2ee62b8c751025b1bd59cnat,
            c: 0x20684153d9eb80a0753069377ba4b5720ea421acdf52184e705c53de9730c6cnat,
        }),
        compressed_key(33) == field_add(deferred(21).c, round_key(77)),
{
    lemma_prime();
    lemma_deferred_20();
    lemma_round_key(72, 0x2cfd61139e50ddd37b09933816e2a09, 0x32e53b7dc4f4947565c1d41e877eb191);
    lemma_round_key(73, 0x5abea18941a4976844544d92ee0eca6, 0x5bdd10b3f170b0dc2f30acd37e26d8e7);
    lemma_deferred_step(21, (1, 0, 1, -1, 1));
    lemma_round_key(77, 0x5c92ef479c11bb51fb24ef76d57912b, 0x12660e7bd156d6cabbb1efb79a25861b);
    lemma_compressed_key(33, 0x7cfb309b75fd3bf2705558ae511dc82, 0x335050969f4bf84fa2b7b4f583989287);
    lemma_folded_key(21, 0);
}

/// What is put off before partial round 22, and the key of that round in
/// compressed form.
proof fn lemma_deferred_22()
    ensures
        deferred(22) == (Lanes {
            a: 0x26b9136656db1b673a52a491a73c1fb40e1b9afedbac794fdc9756e5a2e4f9anat,
            b: 0x593d584d72fb9753b8748b4070a871080781ef8acac0f3565b9329df62217fenat,
            c: 0x66bddd8c71efc319c0ef0ca89b49d756034cd5ba0875c2fcc08216832061bcfnat,
        }),
        compressed_key(34) == field_add(deferred(22).c, round_key(80)),
{
    lemma_prime();
    lemma_deferred_21();
    lemma_round_key(75, 0x3abdc9d677231325b3e3c43cfd44307, 0x6b4ce33cddbc8446120dce84e6122b73);
    lemma_round_key(76, 0x2250f430b7fe7d12e5d00b6b83e52a5, 0x2ca94879ccfab81a7a602662c2d62c4d);
    lemma_deferred_step(22, (1, 0, 1, -1, 0));
    lemma_round_key(80, 0x5f9406febca3879b756ef3f6331890b, 0x3d46afa705908f68fb7d861c4f275a1b);
    lemma_compressed_key(34, 0x4651e48b2e9349a5365e009ece62680, 0x9d7b7d02a617eb98c785a784812d75e9);
    lemma_folded_key(22, 1);
}

/// What is put off before partial round 23, and the key of that round in
/// compressed form.
proof fn lemma_deferred_23()
    ensures
        deferred(23) == (Lanes {
            a: 0x659cbb90e4e33daa20d35ceda11b9473a39fda330a65e9ab1fe0e6ea094e83nat,
            b: 0x2205983d31775a768b15b861f0fd05c84073beda67ecfaa3fe4076b66ef46fbnat,
            c: 0x722a19bdee6b6dc20b7bbeb6748a59bf7ce31f64645cb1fb59decbdc18d03c5nat,
        }),
        compressed_key(35) == field_add(deferred(23).c, round_key(83)),
{
    lemma_prime();
    lemma_deferred_22();
    lemma_round_key(78, 0x235ec597391648b510f616fa8b87900, 0xfd08fd4208a785cffcf784a63a0fd5c6);
    lemma_round_key(79, 0x4ed4e872eb7e736207be77e9d11e38f, 0x396b5c0ba3376e855523c00b372cc668);
    lemma_deferred_step(23, (0, 1, 2, 0, 0));
    lemma_round_key(83, 0x1b4d48bd38a3f8602186aabb291eca0, 0xd319f0e3648b2574c49d6fd1b033d903);
    lemma_compressed_key(35, 0xd77627b270f65122d0269719da923c, 0xcae822d9aad0f0947a3b5c8f71c0dcc7);
    lemma_folded_key(23, 1);
}

/// What is put off before partial round 24, and the key of that round in
/// compressed form.
proof fn lemma_deferred_24()
    ensures
        deferred(24) == (Lanes {
            a: 0x58f5cdecf942403c1fbe050345f753c661ca7cba73b1efe03609626edd0b588nat,
            b: 0x36e2a16dbfbe7dc6ef1eaaa5c46c816e4d0987e3e763a5f08d6be7b69bf16f8nat,
            c: 0x1109963f9cc1e13a984fad2ec0c5692c0a607a6b462724f7d44ebd5c208cf48nat,
        }),
        compressed_key(36) == field_add(deferred(24).c, round_key(86)),
{
    lemma_prime();
    lemma_deferred_23();
    lemma_round_key(81, 0x1d9c501d9ff1fba621a9f61b68873c0, 0x5f17b0384661f06d97edf441abdaa49d);
    lemma_round_key(82, 0x4b0de22bbd0a58534982c8e28d2f6e1, 0x69e37ba694774c4dfa530f41c535952e);
    lemma_deferred_step(24, (0, 0, 1, -1, 1));
    lemma_round_key(86, 0x8913d96a4f36b12becb92b4b6ae3f8, 0xc209fb90caab6668567289b67087bf60);
    lemma_compressed_key(36, 0x199ad3d641b54c4d571b3fe37773a8b, 0x82b003377f0dd8b7d3b7758c32908ea8);
    lemma_folded_key(24, 0);
}

/// What is put off before partial round 25, and the key of that round in
/// compressed form.
proof fn lemma_deferred_25()
    ensures
        deferred(25) == (Lanes {
            a: 0x32d7309cfb986ff5075b70e910c7d5dca08abea1bd4e014698dd739de28324anat,
            b: 0x662f6c03ed1ba614112cdbdfe8411d7c004e33cceb354009b5352113cfd27cnat,
            c: 0x163a1cee5e635ac9e32451958921e2027042edb2774d56a2fec510c652c2fe7nat,
        }),
        compressed_key(37) == field_add(deferred(25).c, round_key(89)),
{
    lemma_prime();
    lemma_deferred_24();
    lemma_round_key(84, 0x7558bbea55584bf1725d8aa67ddba62, 0x6b6596bbd2f4e65719702cefcead4bab);
    lemma_round_key(85, 0x1108f1a9500a52f561ea174600e266a, 0x70b157d56ece95b60a44cf7a3eef17be);
    lemma_deferred_step(25, (1, 0, 2, 0, 1));
    lemma_round_key(89, 0x2eb919524a89a26f90be9781a151514, 0x5baea3bc96b8cd1f01b221c4d2a1ce87);
    lemma_compressed_key(37, 0x44f33640a8ecfd3973e2e9172a73334, 0x82b2d297be2da289319e72d137cdfe6e);
    lemma_folded_key(25, 0);
}

/// What is put off before partial round 26, and the key of that round in
/// compressed form.
proof fn lemma_deferred_26()
    ensures
        deferred(26) == (Lanes {
            a: 0x4aa4f7f8272cdc371b2a3e02950949b220909d5c064cc977f779df55aadae9anat,
            b: 0x14c0632d0deb1ce2a6dc57430d9130f2ed40da87f9c6382b693218dea94b922nat,
            c: 0x1af24a658ca0dfaa3a26f35fc3bc0c5f99a7e16a064348a64723e33b80c7abcnat,
        }),
        compressed_key(38) == field_add(deferred(26).c, round_key(92)),
{
    lemma_prime();
    lemma_deferred_25();
    lemma_round_key(87, 0x6502262c51ad8f616926346857dec8c, 0xca2e99f5742b6bf223f4d8a6f32867a6);
    lemma_round_key(88, 0x7cb5fcdc00892812889280505c915bd, 0xe962ea034378b343cd3a5931d2ec0e52);
    lemma_deferred_step(26, (1, 1, 0, 0, 0));
    lemma_round_key(92, 0x635895330838846e62d9acce0b625f8, 0x85e5941e54bd3a2106fcf837aef5313b);
    lemma_compressed_key(38, 0x7e4adf9894d964189d00a02dcf1e6be, 0x7f801234f5216eab6b6f366b6701abf7);
    lemma_folded_key(26, 0);
}

/// What is put off before partial round 27, and the key of that round in
/// compressed form.
proof fn lemma_deferred_27()
    ensures
        deferred(27) == (Lanes {
            a: 0x627b4227a89e3adf44b5644c72dac0cf0279d84c64c023b50e2158feb3775d3nat,
            b: 0x2bd77655989c2337de852c956ea45d34c1614d2938fbfb1b4155c7d0f303a5dnat,
            c: 0x1b51e5e908010bd3b3181bdb821b31cd208c459195e2144ce665c896e039dbbnat,
        }),
        compressed_key(39) == field_add(deferred(27).c, round_key(95)),
{
    lemma_prime();
    lemma_deferred_26();
    lemma_round_key(90, 0x58efb6272921bc5eada46635e3567dc, 0xed0662c0161223e3c1c63e8de3ec3d73);
    lemma_round_key(91, 0x62fcd49ca9c7587b436d205ffc2a395, 0x94254a1ac34acd46d6955e7844d4f88e);
    lemma_deferred_step(27, (1, 0, 1, -1, 1));
    lemma_round_key(95, 0x1af01472348f395bacdfed1d27664d0, 0xd5bdea769be8fcb8fbef432b790e50d5);
    lemma_compressed_key(39, 0x3641fa5b3c90452f5ff808f8a9817ed, 0xa7c6aecfb5471dfdca559fb4e711ee90);
    lemma_folded_key(27, 0);
}

/// What is put off before partial round 28, and the key of that round in
/// compressed form.
proof fn lemma_deferred_28()
    ensures
        deferred(28) == (Lanes {
            a: 0x7758e8ab1d509e14266baf43bc3527b2f73e3187d80853e1251405523d957bdnat,
            b: 0x92536d3ff953be43e535f229e1a84673b08f4111293d70bbb542f284f0cb15nat,
            c: 0x3719d8eb8eddb117f40c28108f0d51a5de1a9ebb62ba3e6ab4dfeb14f744654nat,
        }),
        compressed_key(40) == field_add(deferred(28).c, round_key(98)),
{
    lemma_prime();
    lemma_deferred_27();
    lemma_round_key(93, 0x7da445b81e9b3d36d47a5f4d23b92a3, 0x78a17f119d5e6e70629f8b41fefb12e3);
    lemma_round_key(94, 0x2b22dab62f0817e9fc5737e189d5096, 0xa9027882bef1738943b7016256118343);
    lemma_deferred_step(28, (1, 0, 2, 0, 1));
    lemma_round_key(98, 0x6cb99b36e521ac0a39872686b84ee1, 0xd28c4942b8036a1c25a0e4117ccaeedf);
    lemma_compressed_key(40, 0x3de5729efd2fcbd897a49a78fa923fc, 0x306df32e6e2f0e02d0eee2c2cc3f3533);
    lemma_folded_key(28, 0);
}

/// What is put off before partial round 29, and the key of that round in
/// compressed form.
proof fn lemma_deferred_29()
    ensures
        deferred(29) == (Lanes {
            a: 0x5a53445377bb8a573f8d1673c7ddf7e54c958f44c14a83ef59f41929e5ce3c4nat,
            b: 0x5dd629c7f9385060d2e694e96cd5220b3168c5fe31387aac146792d09e0874enat,
            c: 0x7e3e8d45bf419e0b365340c52d846aed0d9664a3480904a1a2c6432ca3e2e3cnat,
        }),
        compressed_key(41) == field_add(deferred(29).c, round_key(101)),
{
    lemma_prime();
    lemma_deferred_28();
    lemma_round_key(96, 0x76b172dbbeec5a31de313b9390f79ec, 0x9284163c8e4986bc5b682e5ac6360309);
    lemma_round_key(97, 0x70efaeae36f6af0f362f6cb423d200, 0x9b30ddb4178d46def0bdb2905b3e0862);
    lemma_deferred_step(29, (1, 0, 2, 0, 0));
    lemma_round_key(101, 0x642a8b4be4ba812cbfcf55a77339b5d, 0x357cceb6946fdc51c14b58f5b8989b59);
    lemma_compressed_key(41, 0x62691891a3fc1e27f622966ca0be20c, 0x6563500c8f06c9bdb77bd2882d6c994);
    lemma_folded_key(29, 1);
}

/// What is put off before partial round 30, and the key of that round in
/// compressed form.
proof fn lemma_deferred_30()
    ensures
        deferred(30) == (Lanes {
            a: 0x717c0b32407f2a0c2815267d4d8973244442e66d185f77643da40aa8c2beafanat,
            b: 0x1fc616dd07d965e3c604d08b231dd4afbd575014bb746958710eedef4b92567nat,
            c: 0x68dafa2a9c52e29c31082af91535cf3a4375cb2c2e758705e64a8e5cbb962canat,
        }),
        compressed_key(42) == field_add(deferred(30).c, round_key(104)),
{
    lemma_prime();
    lemma_deferred_29();
    lemma_round_key(99, 0x29fd44305a5a9a70bbf9674e544bda0, 0xfb3d0fe5bb3aa743fd1b8a4fc1dc6055);
    lemma_round_key(100, 0x6b447ded1046e83629b184d8c36db3, 0xa11a6778d8848142aa6363d6619f9764);
    lemma_deferred_step(30, (1, 0, 0, -1, 0));
    lemma_round_key(104, 0x7d2dd994756eacba576b74790b21949, 0x71596f9cd59e55ad2884c52039013df5);
    lemma_compressed_key(42, 0x6608d3bf11c18e4688739f72205763d, 0x1590cc4f9885ae1d86e96e0604baa0be);
    lemma_folded_key(30, 1);
}

/// What is put off before partial round 31, and the key of that round in
/// compressed form.
proof fn lemma_deferred_31()
    ensures
        deferred(31) == (Lanes {
            a: 0x92e2bd7c5beb13a8a3439d0604261c7efb1ecf1c87c213dea575a2922c10cenat,
            b: 0x5f3a298d15a66d5931520abbb18141f835c37a82c8600ef1bf973c014d9bbbdnat,
            c: 0x14fa0125580c2278ac71178a57608fe7dcf73937800e092615600f13ea92a89nat,
        }),
        compressed_key(43) == field_add(deferred(31).c, round_key(107)),
{
    lemma_prime();
    lemma_deferred_30();
    lemma_round_key(102, 0x489e0a26f65a1eecc6cc6aa5b6e775c, 0xbc51a73700bd794a7acd79ae1d95882a);
    lemma_round_key(103, 0x3b19d4ef195975bbf78ab5dc2fd1d24, 0x816428f45a06293c1b9d57b9a02e9200);
    lemma_deferred_step(31, (1, 0, 2, -1, 1));
    lemma_round_key(107, 0x7ccfc88e44a0507a95260f44203086e, 0x89552bbe53dcc46b376c5bcab6ea788e);
    lemma_compressed_key(43, 0x11c9c9b39cac71e3419726ce779116d, 0x7249f51cbdda4fd98c25cbbf593a316);
    lemma_folded_key(31, 1);
}

/// What is put off before partial round 32, and the key of that round in
/// compressed form.
proof fn lemma_deferred_32()
    ensures
        deferred(32) == (Lanes {
            a: 0x191fdfea252174183486bee300028a4dba74f3408f89a72317ad62332ec58aanat,
            b: 0x7022d3a7f41693ceb4820a0489f57934d11cb92e3a0471d53773c2ae167025anat,
            c: 0x547e862118857134c0025a6f3b06888c74ac1d092ac29aa6f01ccfc28c2ab29nat,
        }),
        compressed_key(44) == field_add(deferred(32).c, round_key(110)),
{
    lemma_prime();
    lemma_deferred_31();
    lemma_round_key(105, 0x1922810cc08f50bf300df869823b9f1, 0x8b3327e29e9e765002970ef0f2e8c5f3);
    lemma_round_key(106, 0x52f3afaf7c9102f1d46e1d79a70745b, 0x39c04376aafff05771cbd4a88ed418ac);
    lemma_deferred_step(32, (0, 1, 1, -1, 0));
    lemma_round_key(110, 0xd63b53707acf8962f05f688129bf30, 0xad43714257949cd9ded4bf5953837fae);
    lemma_compressed_key(44, 0x61e23b58203269caef0850f74da27b9, 0x748e3312ea40c6844dd68c557c462ad7);
    lemma_folded_key(32, 0);
}

/// What is put off before partial round 33, and the key of that round in
/// compressed form.
proof fn lemma_deferred_33()
    ensures
        deferred(33) == (Lanes {
            a: 0x2413f8ac1e669c47a959a5d8f1b1591321eb3d77dd4a7003d1f83c61b74b53dnat,
            b: 0x658fd0615db9e95968c9f8af0c66d9210d4805c27acb4e8f05bfd31706023danat,
            c: 0x1f421425605659ff2047d694f2a53ff90a519bdab13f90ba661c34a558a48b2nat,
        }),
        compressed_key(45) == field_add(deferred(33).c, round_key(113)),
{
    lemma_prime();
    lemma_deferred_32();
    lemma_round_key(108, 0x2949125939e6ad94100228beff83823, 0xf5157dd8e067bc8819e40a1ab008dd9c);
    lemma_round_key(109, 0x6cb64e3a0d37a6a4273ce4ee6929ba3, 0x72d6811dde135af4078ba6e1912e1014);
    lemma_deferred_step(33, (0, 1, 2, -1, 1));
    lemma_round_key(113, 0x2240b9755182ee9066c2808b1e16ea4, 0x48e26a83074558d9279f450b79f97516);
    lemma_compressed_key(45, 0x4182cd9ab1d9488f870a572010bc2a3, 0xd9878440b25951e4ce010855cf83bdc8);
    lemma_folded_key(33, 0);
}

/// What is put off before partial round 34, and the key of that round in
/// compressed form.
proof fn lemma_deferred_34()
    ensures
        deferred(34) == (Lanes {
            a: 0x32494c767bcad146feb7176bb4d0d01013ba024f08e020b70be9c2adf79d4ccnat,
            b: 0xd32eb6124fa8c3bf59dda254c7d486b53500bba11df5ffd441bdba4a1e4b77nat,
            c: 0x528b308aab68230d848c9ea33429c3d26034fb4a7b80605ce3e6f384aadc4abnat,
        }),
        compressed_key(46) == field_add(deferred(34).c, round_key(116)),
{
    lemma_prime();
    lemma_deferred_33();
    lemma_round_key(111, 0xbcb1549c9cabb5d13bb968b4ea22d0, 0xbb7d7460a6965702942092b32ef152d4);
    lemma_round_key(112, 0x3d1c5233657ce31f5ead698fe76f649, 0x2792a7205ba0531a0ca25b8d8fe798c1);
    lemma_deferred_step(34, (0, 1, 1, 0, 0));
    lemma_round_key(116, 0x7f84b639f52e57420bc947defced0d8, 0xcbdbe033f578699397b83667049106c7);
    lemma_compressed_key(46, 0x520fe6c4a096793f9055e6823116d15, 0xf1df2fe89d306f9965f6a59f4f3ecb71);
    lemma_folded_key(34, 1);
}

/// What is put off before partial round 35, and the key of that round in
/// compressed form.
proof fn lemma_deferred_35()
    ensures
        deferred(35) == (Lanes {
            a: 0x7b614913211f5e01f389cc1e4dbb435c62ec640c10cb8757e03229a2c128829nat,
            b: 0xcbf82991f01ece018be55d94c3d3638f57c73860ac97b6bc838ead73e5cb6nat,
            c: 0x7d4aa874c797a021f8fef3605c7bb7fc69ca4e69d80f77d091d74d7aa6a15banat,
        }),
        compressed_key(47) == field_add(deferred(35).c, round_key(119)),
{
    lemma_prime();
    lemma_deferred_34();
    lemma_round_key(114, 0xcc203d8b0f90e30fe8e54f343cef59, 0xfe8d70882137de70c9b43ab6615a646c);
    lemma_round_key(115, 0x310c6cc475d9346e061bacdc175ea9e, 0x119e937dea9d2100fa68e03c1f77910b);
    lemma_deferred_step(35, (0, 0, 1, 0, 0));
    lemma_round_key(119, 0x372082b8a6c07100a50a3d33805827a, 0xd350c88b56f62c6d36a0d876856a99e8);
    lemma_compressed_key(47, 0x346b2b2d6e5810129e093093dcd3dfa, 0x99ed6d71f47723ea3fbe4d4e2fd4afa1);
    lemma_folded_key(35, 1);
}

/// What is put off before partial round 36, and the key of that round in
/// compressed form.
proof fn lemma_deferred_36()
    ensures
        deferred(36) == (Lanes {
            a: 0xd0bba2e2311f30771467b9cab99398e78eb64ec2dbd1fc73db94ae6edbf3e8nat,
            b: 0x41ac09deaaf6959683f20d99e7a25102ba870e70e121d447d696c5dba6685denat,
            c: 0x65afd827bc0dafc876aa370161fb7445df322b3da64da5bfb3914285a3ab706nat,
        }),
        compressed_key(48) == field_add(deferred(36).c, round_key(122)),
{
    lemma_prime();
    lemma_deferred_35();
    lemma_round_key(117, 0x584ca7f01262c5bd89c4562f57139f4, 0x7e9f038cb32ec35abe4e1da8de3e164a);
    lemma_round_key(118, 0x1135eefaf69b6e4af7d02f562868be3, 0xe02fdc72e01e9510531f9afa78abbbde);
    lemma_deferred_step(36, (1, 0, 2, 0, 0));
    lemma_round_key(122, 0x2da9f26a8271659075739ba206507a0, 0x8ac360150e849950ef3973548fbd2fca);
    lemma_compressed_key(48, 0x1359ca923e7f1448ec1dd2a3684bee4, 0xe8b682c8e8e973acea72877ce9f7e6cf);
    lemma_folded_key(36, 1);
}

/// What is put off before partial round 37, and the key of that round in
/// compressed form.
proof fn lemma_deferred_37()
    ensures
        deferred(37) == (Lanes {
            a: 0x2c96c5567fb5d3fbedd40884be3074e660a360a2a2560f763077152165b3813nat,
            b: 0x78886e427334a053a9acd0f4754462b920467fc6e2c4abd70ce70ac36a01722nat,
            c: 0x1a072b8a06409a5c22139bc824760916a02e706ddfc8b1cf91c8052efdd9079nat,
        }),
        compressed_key(49) == field_add(deferred(37).c, round_key(125)),
{
    lemma_prime();
    lemma_deferred_36();
    lemma_round_key(120, 0x7c3c12b819a8aad87499bac1a143fc5, 0x9674f132e33898f0c119e3d12462dfe6);
    lemma_round_key(121, 0x4f1354c51e8f6905b84157cfeff6822, 0xc056ce9e29d602eb46bd9b75a23836cf);
    lemma_deferred_step(37, (1, 1, 0, -1, 0));
    lemma_round_key(125, 0x2dbf2a6b56b26d23ebeb61e500687de, 0x749b03d3d349169699258ee4c98005fc);
    lemma_compressed_key(49, 0x47c655f55cf307800dfefdad24de86f, 0xde9deadab145a1b392420f37b95d9675);
    lemma_folded_key(37, 0);
}

/// What is put off before partial round 38, and the key of that round in
/// compressed form.
proof fn lemma_deferred_38()
    ensures
        deferred(38) == (Lanes {
            a: 0x6a14292249e9d08cd78732cd169cebc9ee16e40d4c46240045228a1fd041947nat,
            b: 0x6a0cba8d5d9d2a974d43f98c39b31adf6f101e515d18c3b0729d3fb9e296810nat,
            c: 0x4003b74a76265382c5219ca06e74e8753f8362ddf796b027e942a532f6d589cnat,
        }),
        compressed_key(50) == field_add(deferred(38).c, round_key(128)),
{
    lemma_prime();
    lemma_deferred_37();
    lemma_round_key(123, 0x287173956a2beb111b5ec29195e38cc, 0x3f6a65ff50801aa75fd78dd550702843);
    lemma_round_key(124, 0x7273101c190ff64212420095a51c841, 0x1c7f3227f6a7a4a64ae6ba7f9201e126);
    lemma_deferred_step(38, (0, 1, 2, -1, 1));
    lemma_round_key(128, 0xaaedaa6ef2fa707d16b3b295410c0e, 0x44f7a2f8135c207824f6ae2a9b16e90c);
    lemma_compressed_key(50, 0x4ab291f16555fa8a968cd7c9c285a95, 0x98efd925f2d58b7aa38ad87dca8441a8);
    lemma_folded_key(38, 0);
}

/// What is put off before partial round 39, and the key of that round in
/// compressed form.
proof fn lemma_deferred_39()
    ensures
        deferred(39) == (Lanes {
            a: 0x7eb13216ced465e7c958daa37d828ec8ac715e5d515513800524ed7cad33176nat,
            b: 0x4b0d255efea143cbb85dec938b17f509ee66153c748461ba3da976f85585390nat,
            c: 0x19d2065be819910e087d7707f9354cdf5f05a4906e6858e2e3bdbb422bd6ef3nat,
        }),
        compressed_key(51) == field_add(deferred(39).c, round_key(131)),
{
    lemma_prime();
    lemma_deferred_38();
    lemma_round_key(126, 0x85b6cbb29739a6808e67f00ab89b52, 0xab89ef8d92530394e4b910efd706c7fb);
    lemma_round_key(127, 0x3d55b5f1171efda1dacbcbadfd5b910, 0xb493fa9589fd937e3e06ce26b08925a3);
    lemma_deferred_step(39, (0, 1, 2, 0, 1));
    lemma_round_key(131, 0x2022036bdf687f041b547fefdf36d4c, 0x2cd3f4b0526a88aafe60a0a8f508bad2);
    lemma_compressed_key(51, 0x39f409c7c782101223d1f6f7d86c21a, 0x22c44ef959510e392c9c7c5d17c629c5);
    lemma_folded_key(39, 0);
}

/// What is put off before partial round 40, and the key of that round in
/// compressed form.
proof fn lemma_deferred_40()
    ensures
        deferred(40) == (Lanes {
            a: 0x8e78de46c6a93822202e7de6ff4c5529c261a61a0cbb3e3111d38a29eb40f0nat,
            b: 0x1d06f57491ae29c81c2cfd2bef86a8f283a341cabbcebe740aaab275c955c65nat,
            c: 0x35f04c37ed5e356502eaf55940370e300c416c4b727e7ab7833943166aaf246nat,
        }),
        compressed_key(52) == field_add(deferred(40).c, round_key(134)),
{
    lemma_prime();
    lemma_deferred_39();
    lemma_round_key(129, 0x6aca6ebf70b1cb46c6331e9f1a5c4cc, 0x89b80f8adc5d18915c1cd0d496ccf5e1);
    lemma_round_key(130, 0x1678602af36c28abb010f831d403d9, 0x4d5e90003e6d37c677e9dd157fb27761);
    lemma_deferred_step(40, (1, 0, 3, 0, 1));
    lemma_round_key(134, 0xecdea7f959a4d488403d5b39687a1f, 0xe0dee3369e5fbc0f4779569f64506e0c);
    lemma_compressed_key(52, 0x44be36b782f882ad86eecb0cd6beb02, 0xe1a2f9fb5587a3babfacead0cafb6052);
    lemma_folded_key(40, 0);
}

/// What is put off before partial round 41, and the key of that round in
/// compressed form.
proof fn lemma_deferred_41()
    ensures
        deferred(41) == (Lanes {
            a: 0x7c6085d0d8f061f09a4c8af04f7046514a03306742d78a5aff631c8795c79c6nat,
            b: 0x463cbf032eac475a874ffa59c35abd3794cd32472de6d1be946551a62c5b5d3nat,
            c: 0x5b11e366d5220dd3097e484b460ac48cda9aff100a785c4e357ee570b4b61fanat,
        }),
        compressed_key(53) == field_add(deferred(41).c, round_key(137)),
{
    lemma_prime();
    lemma_deferred_40();
    lemma_round_key(132, 0x7bfc350957c968ca664397414bdfb8, 0xf9b8dfe49fb63e32353d4e2e8d1d4af6);
    lemma_round_key(133, 0x2d639cbd418cb9fc24ea29ccd1d15ab, 0x81f43a499b27a06d3c5e2176f7ad79af);
    lemma_deferred_step(41, (0, 0, 0, -1, 0));
    lemma_round_key(137, 0x758ffc77c62e3e0f86ef6ea01545ad7, 0x6f281ec2941da7222d1e8b4e2ec1f192);
    lemma_compressed_key(53, 0x50a1dfde9b504ad2906db6eb5b50720, 0x3cd1ceb394c52ce7107679a53a0d538b);
    lemma_folded_key(41, 1);
}

/// What is put off before partial round 42, and the key of that round in
/// compressed form.
proof fn lemma_deferred_42()
    ensures
        deferred(42) == (Lanes {
            a: 0x6aa20bbff6be090d8fc7e84a9f492e8c7cff56425b7e81b6a868b400aed57cnat,
            b: 0x686da5f8a415068f51cbe5f8fa1844d8ebd4978316ca79d7e692f43aa15e6f7nat,
            c: 0xf1e3d61adab6d88c3984c45d7ee2707edfdaef08776b721c1f9cb82b4c7743nat,
        }),
        compressed_key(54) == field_add(deferred(42).c, round_key(140)),
{
    lemma_prime();
    lemma_deferred_41();
    lemma_round_key(135, 0x3f656bdc4fefd92b70658e2f1992ef9, 0xf22e5f2d28c490e21d4e34357154b558);
    lemma_round_key(136, 0xd1b8cb1561eed32319638ccab9033d, 0xfec47596f8a6f4ce6594e19fddd59254);
    lemma_deferred_step(42, (1, 0, 2, -1, 1));
    lemma_round_key(140, 0x4d56feb32cde74feede9749739be452, 0xe92c029007a06f6e67c81203bf650c68);
    lemma_compressed_key(54, 0x5c753c14da89e287b181c0dd11ac6c3, 0x680bdd7f1017dae083e7aebbeab183ab);
    lemma_folded_key(42, 0);
}

/// What is put off before partial round 43, and the key of that round in
/// compressed form.
proof fn lemma_deferred_43()
    ensures
        deferred(43) == (Lanes {
            a: 0x1b55ed422cd9f81b4cc9eabafdbd2956d72c4aaf1a787bf73db69ed32e5d545nat,
            b: 0x18082fb631c0fe6c09c9b264bd8f62a2bebf855d57f040d5c80084994abbenat,
            c: 0x4d9ef2893b541c16706010844c7fccfa1a36c594de9045db33f74f274a894c4nat,
        }),
        compressed_key(55) == field_add(deferred(43).c, round_key(143)),
{
    lemma_prime();
    lemma_deferred_42();
    lemma_round_key(138, 0x20315ca079570df995386e96aeaa1b4, 0x596aacd28f83c32f29a591c95e6fcac5);
    lemma_round_key(139, 0x3e55cf341e7c280cb05f3d6ff9c8d9f, 0x2cfe76b84a9d1b0f54884b316b740d8d);
    lemma_deferred_step(43, (0, 1, 1, 0, 0));
    lemma_round_key(143, 0x5f573de597ce1709fc20051f6501268, 0xcd4b278811924af1f237d15feb17bd49);
    lemma_compressed_key(55, 0x2cf6306ed32232106c8015a3b180f38, 0x6eee93e15f7b4f4fa57746525fc0520c);
    lemma_folded_key(43, 1);
}

/// What is put off before partial round 44, and the key of that round in
/// compressed form.
proof fn lemma_deferred_44()
    ensures
        deferred(44) == (Lanes {
            a: 0x64a4a1c2027e5d4e9141d3383008bf16e38f91dbf0c3f6730a32675cd7cbd7dnat,
            b: 0x445331f04f13ea0b8f6b9f5e61753756d8feff5f596f6f63eecfe584e29ba01nat,
            c: 0x1028b7e8d9b539a180eb19ece749c3e00548493e4baa43878db140ebfa981benat,
        }),
        compressed_key(56) == field_add(deferred(44).c, round_key(146)),
{
    lemma_prime();
    lemma_deferred_43();
    lemma_round_key(141, 0x4ee807aa678a9a433b6171eaa6a2544, 0x497f7599fb8145d7e8089f465403c89b);
    lemma_round_key(142, 0x25d2bacc8f1ee7548cb5f394de2cb6e, 0x1f365e56a1bc579d0f9a8ad2ef2b3821);
    lemma_deferred_step(44, (0, 0, 2, 0, 1));
    lemma_round_key(146, 0x1bf75c7a739da8d29f9c23065ff8ccb, 0x1da7deec83e130bcd4a27a416c72b84b);
    lemma_compressed_key(56, 0x2c2014634d52e27420873cf34742909, 0x1dfc6380689bd4f54d7d8e502c1c3a09);
    lemma_folded_key(44, 0);
}

/// What is put off before partial round 45, and the key of that round in
/// compressed form.
proof fn lemma_deferred_45()
    ensures
        deferred(45) == (Lanes {
            a: 0x321c28331e267d9c06e4b7d698ca4bc3352e2eb652cd8df73628666ef2cd71dnat,
            b: 0x211c4fc63e670b3447cb35423c4c8f2760b14130ae6f1aeefddf4e7b1e7d67fnat,
            c: 0x87fec366fdfb933df8cc14a2e3ede4dea3e76c2d22f39841c248bf9ea2804fnat,
        }),
        compressed_key(57) == field_add(deferred(45).c, round_key(149)),
{
    lemma_prime();
    lemma_deferred_44();
    lemma_round_key(144, 0x30297c3c54a505f5826a280e053cf7a, 0x3c1e84a1dcf8b33c682cf85ddac86deb);
    lemma_round_key(145, 0x2f5e9c47c9a86e043c7526a59783f03, 0xc6bc79b69b8709fe6a052b93a8339ae8);
    lemma_deferred_step(45, (1, 0, 1, -1, 1));
    lemma_round_key(149, 0x347bb025695e497f1e201cd62aa4600, 0xb8b85cf718cd1d400f39c10e59cc5852);
    lemma_compressed_key(57, 0x3cfb9c5bd93e02b2fdacde2058e33e5, 0x975c446345f010d850fc09cdf86ed8a1);
    lemma_folded_key(45, 0);
}

/// What is put off before partial round 46, and the key of that round in
/// compressed form.
proof fn lemma_deferred_46()
    ensures
        deferred(46) == (Lanes {
            a: 0x52be9deeb0b5e149bcbfd944a9413508580a0eb09366427ecb6d9232c267ecfnat,
            b: 0x770af85bdc8fb3ccc113650b2b1bf10eeff8ab3c5c4ba054f0d59b05f9bf776nat,
            c: 0x2dd9d2c96a1317467dd63a1cbf12a1fcb408b1ba1b8d5114ed4bfb9664543adnat,
        }),
        compressed_key(58) == field_add(deferred(46).c, round_key(152)),
{
    lemma_prime();
    lemma_deferred_45();
    lemma_round_key(147, 0x60563d5f852ae875989017bd5c4cfdc, 0x29cd27fc4e91eeabdb8e864df3c3c675);
    lemma_round_key(148, 0x7a4b1d70885aa820969635468daec94, 0xf8156c20e3131bd71005be1cd16ccf9e);
    lemma_deferred_step(46, (1, 1, 0, -1, 0));
    lemma_round_key(152, 0x865d450ce29dc42fb5db72460b3560, 0xa2f093695573dff94fd0216eb925beec);
    lemma_compressed_key(58, 0x363fa71a383cf3897933f1411fc5f80, 0x6e311e84f72cb50a9ea4e1281f6b0299);
    lemma_folded_key(46, 0);
}

/// What is put off before partial round 47, and the key of that round in
/// compressed form.
proof fn lemma_deferred_47()
    ensures
        deferred(47) == (Lanes {
            a: 0x390fd603127c566f62c5a33ccd1cc1f02038eb82af56fbbe5d8d7f6827df769nat,
            b: 0x2ff94e302c41184f301ea250b29449bc53165ab8a31c5526fac262079c38c2anat,
            c: 0x448b43e9731d9f98195380760d443c19e6914865061d534bb1658eb045d35a0nat,
        }),
        compressed_key(59) == field_add(deferred(47).c, round_key(155)),
{
    lemma_prime();
    lemma_deferred_46();
    lemma_round_key(150, 0x6783ab1e1ef97bb9e7f9381eb6ab0de, 0x2c4c9c2de413691ba8aa666292e9e217);
    lemma_round_key(151, 0x133e0280c6de90e7b3870a07823c081, 0xfd9c4cb99d534debd6a7bfb4e5b0dd46);
    lemma_deferred_step(47, (1, 1, 1, 0, 0));
    lemma_round_key(155, 0x2df6557bfd4a4e7e7b27bf51552d2b5, 0x162706a3e624faca01a307ef8d532858);
    lemma_compressed_key(59, 0x728199657067ee16947b3fc76271676, 0xb4901b2a3686cffebcb960da91b05df8);
    lemma_folded_key(47, 0);
}

/// What is put off before partial round 48, and the key of that round in
/// compressed form.
proof fn lemma_deferred_48()
    ensures
        deferred(48) == (Lanes {
            a: 0x3a28fe056816f6df5ce576ce7e3920f6dd7bb716b6d05aaa2c1d3c81fc3e62cnat,
            b: 0x2196e9e7e55bb34b82cc810ff271a11bdf5678a3355be802aa826ddefcd30d2nat,
            c: 0xc490a0ec15da1c9ed0c7adf45e3bfed7f129f39c0ba3953c0cd67517fb5aadnat,
        }),
        compressed_key(60) == field_add(deferred(48).c, round_key(158)),
{
    lemma_prime();
    lemma_deferred_47();
    lemma_round_key(153, 0x1de023f840e054a35526dabacf0dee9, 0x48efba06bcbb414ecd81a6b301664e57);
    lemma_round_key(154, 0x55fc1e341bfdf7805015a96f724c5a, 0xc7cc7b892a292d38190631ab1a5388c4);
    lemma_deferred_step(48, (0, 0, 2, 0, 1));
    lemma_round_key(158, 0x3396b33911219b6b0365c09348a561e, 0xf1ccb956fc673bc5291d311866538574);
    lemma_compressed_key(60, 0x3fdfbd47d27f3d34f0723b728e8921d, 0xc9bde34a9872df5a652a078d7e4ee021);
    lemma_folded_key(48, 0);
}

/// What is put off before partial round 49, and the key of that round in
/// compressed form.
proof fn lemma_deferred_49()
    ensures
        deferred(49) == (Lanes {
            a: 0x2ad6fb02cec6daea4439a6be8d1aba1bc638471750114d96f696557cc9798fanat,
            b: 0x2b726ad2a4880a979f72975dc3f217dec404be90465a752d53b909f4758978nat,
            c: 0x140fea2ad23f2d2065213ea4586dcc4eecfbfd9725d5d32210ad626ec1107c1nat,
        }),
        compressed_key(61) == field_add(deferred(49).c, round_key(161)),
{
    lemma_prime();
    lemma_deferred_48();
    lemma_round_key(156, 0x113a8a66962ce08d92a6bd3e9c1d55e, 0xf8f226da95e4d629046d73d0507f6271);
    lemma_round_key(157, 0x271577d6ee9fa377f2c889874ba5b44, 0xca1076033db5c2de4f3367b08c008e53);
    lemma_deferred_step(49, (0, 0, 2, 0, 1));
    lemma_round_key(161, 0x6b14294e71cd7fb776edbd432d20eb8, 0xf66d00533574e46573516f0cacdeec88);
    lemma_compressed_key(61, 0x7f241379440cacd7dc0efbe7858eb7d, 0xe53cc02ca7d24197945c453398eff449);
    lemma_folded_key(49, 0);
}

/// What is put off before partial round 50, and the key of that round in
/// compressed form.
proof fn lemma_deferred_50()
    ensures
        deferred(50) == (Lanes {
            a: 0x438c159634e80e5bd7359d42369f2316c23d5afe2b99b1712e238b9efa92bd0nat,
            b: 0x601e22406e54aeaf63a7255a622e1170b2d26a4fe5871f7f92737177f7d90efnat,
            c: 0x31b6f9aae349b05e39c73bf3ea3888d307b57857230948f8cdd80d13815cd71nat,
        }),
        compressed_key(62) == field_add(deferred(50).c, round_key(164)),
{
    lemma_prime();
    lemma_deferred_49();
    lemma_round_key(159, 0x1e1392f2da08549c8a7d89e89918930, 0x6170baa3c3436e6a5398f69c8f321636);
    lemma_round_key(160, 0x661545081032013df118e1d6e7c61a3, 0x33e313b1a9a5b6d69c876bd2e7d694ca);
    lemma_deferred_step(50, (0, 0, 2, -1, 1));
    lemma_round_key(164, 0x29778dc707504fa6a9f7c97b4ceef0a, 0x9b39001d034441617757cd816dac919a);
    lemma_compressed_key(62, 0x5b2e8771ea9a0004e3bf056f3727797, 0xcbb457a27574d5f104354e52a5c25f0b);
    lemma_folded_key(50, 0);
}

/// What is put off before partial round 51, and the key of that round in
/// compressed form.
proof fn lemma_deferred_51()
    ensures
        deferred(51) == (Lanes {
            a: 0x3e8ac7f29e170ba862b752fb5bcfcd3f24c8fc369e0f8ad65370b5c645e2d0anat,
            b: 0x18f17d5250933a83dce632854b25f863dcd4d34b1208d752bc4854620cdd5f9nat,
            c: 0x52cca55026c1e91a42e8903b0854ea6da3fa1475c60359c1cb9430b21c82b89nat,
        }),
        compressed_key(63) == field_add(deferred(51).c, round_key(167)),
{
    lemma_prime();
    lemma_deferred_50();
    lemma_round_key(162, 0x7252fbbb06c2848338b1c41df31e4e5, 0x1fe2a18e2406c671915cab6eb1a1d4f2);
    lemma_round_key(163, 0x3ccf71be7cc2a9abcf5a09807c69679, 0x430c03645747621b7f5327cb00ff99da);
    lemma_deferred_step(51, (1, 1, 1, 0, 0));
    lemma_round_key(167, 0x37c1367e49cbfc403b22aac82abf83b, 0xed083148a5f4c92839e5d769bdab6b6);
    lemma_compressed_key(63, 0xa8ddbce708de44a7e0b3b0333146e1, 0xe910245be6bf822ea057a081bda2e23e);
    lemma_folded_key(51, 1);
}

/// What is put off before partial round 52, and the key of that round in
/// compressed form.
proof fn lemma_deferred_52()
    ensures
        deferred(52) == (Lanes {
            a: 0x7c0f56a6c66699af3b894583713974a3aea9b689b2938aedb7b96bb9cbb9b8anat,
            b: 0x6338c6dfcce3fa5f259753a2ecbe9beb2c592a326e4549c239e0354e3206bb0nat,
            c: 0xc6b47e37cc14fa80af8f8f0423d6c5c4128462ba2272095beec9b35ccd97ednat,
        }),
        compressed_key(64) == field_add(deferred(52).c, round_key(170)),
{
    lemma_prime();
    lemma_deferred_51();
    lemma_round_key(165, 0x39473f6f06bb99e33590d34e3bae36e, 0x491f7bbf86a26aa55a8f5b27bb98d4c5);
    lemma_round_key(166, 0x7ba7c32f875b71b895caa0215f996fd, 0x4ad92bab187e81417063dde91c08c027);
    lemma_deferred_step(52, (0, 1, 2, 0, 1));
    lemma_round_key(170, 0x20e6d62a2fe0fe9b0fab83e8c7d1e8b, 0xfd0fec827960e40a91df64664dcd7774);
    lemma_compressed_key(64, 0x2d521e0daca24e431aa47cd90a0f551, 0xc12270e533835613edce2e19aa9b0f61);
    lemma_folded_key(52, 0);
}

/// What is put off before partial round 53, and the key of that round in
/// compressed form.
proof fn lemma_deferred_53()
    ensures
        deferred(53) == (Lanes {
            a: 0x4ca34945adf5e7dafba9c26c01870946aee6f3cb9198b3658ad55b5c24f809cnat,
            b: 0x1614f3bbb81935af427a91aeb6dd4ab88d60c3db1d8525300ce0a97b36a52canat,
            c: 0x1b472ac4faee5915dc97985ea554df4710c317f83a09c71abefa58f077296e9nat,
        }),
        compressed_key(65) == field_add(deferred(53).c, round_key(173)),
{
    lemma_prime();
    lemma_deferred_52();
    lemma_round_key(168, 0x5c9eb899931d2f4b53ffcf833cdfa05, 0xc2068375ff933eb37ae34157c0b2d951);
    lemma_round_key(169, 0x5f6054a4d48698ec27772fb50a7d2e5, 0xc1557ffdc1ffd07331f2ca26c6e3b661);
    lemma_deferred_step(53, (1, 1, 2, 0, 1));
    lemma_round_key(173, 0x5194962daf6679b9a0c32b5a9a307ba, 0x92e2c630f70e439195b680dd296df3fd);
    lemma_compressed_key(65, 0x6cdbc0f2aa54d2cf7d5ac3b93f855af, 0x3eef7b07aaee00341a6266c30e08ae6);
    lemma_folded_key(53, 0);
}

/// What is put off before partial round 54, and the key of that round in
/// compressed form.
proof fn lemma_deferred_54()
    ensures
        deferred(54) == (Lanes {
            a: 0x5ab4b13b34ceab25be3ebd6bb468622211b2e1f4b30b12d7fc077291baff11anat,
            b: 0x621b0984a574448ab378e83c8ab633b86fd46a8167fae6aa6357af32d83bc02nat,
            c: 0x7c4cd3db47ad345d8562ea9794d91734d0ef3bb9a5881616cc57e1af7161a8dnat,
        }),
        compressed_key(66) == field_add(deferred(54).c, round_key(176)),
{
    lemma_prime();
    lemma_deferred_53();
    lemma_round_key(171, 0x6290a56a489ad52120c426fe0e409c2, 0xff17adf51f528cafb0d026d14ffd6aac);
    lemma_round_key(172, 0x3703f16f990342c2267a6f7ece34270, 0x5a32ca4c101417286279f6fc315edc7c);
    lemma_deferred_step(54, (1, 0, 1, -1, 0));
    lemma_round_key(176, 0x418c963bc97195a74077503ee472f22, 0xcfdff0973190ab189c7b93103fd78167);
    lemma_compressed_key(66, 0x3dd96a17111ec8f4c5da3ad6794c096, 0x1ceee452cbe92c7a0941112b36ed9bf3);
    lemma_folded_key(54, 1);
}

/// What is put off before partial round 55, and the key of that round in
/// compressed form.
proof fn lemma_deferred_55()
    ensures
        deferred(55) == (Lanes {
            a: 0x54757faed812c01d990aedef9720ea9dc548c870152130d9afd5b8324560e38nat,
            b: 0x5097fdc09991daa26afd201dfacda1d800d5b9ed606e00bad04b78e8fe54db6nat,
            c: 0x1eec0f71f4072bd9706e6e8ce29a462e23987415a59980f6fc51fa4a386041nat,
        }),
        compressed_key(67) == field_add(deferred(55).c, round_key(179)),
{
    lemma_prime();
    lemma_deferred_54();
    lemma_round_key(174, 0xe8eae20a79a7c1242c34617b01340f, 0xb5fd4bea2aa58b98d2400d9b515ee5e2);
    lemma_round_key(175, 0x369058169d63091ae28bfb28def7cd8, 0xd00dd7c2894fae4ffec65242afa5cd45);
    lemma_deferred_step(55, (0, 1, 2, 0, 1));
    lemma_round_key(179, 0x5cc0f0f6cf9be94a150116e7932f8fe, 0x74ac20ad8100c41dc9c99538792e279b);
    lemma_compressed_key(67, 0x5eafb1edeedc5c07ac07fdd06159344, 0xa2cfb92196a65d9ec0c5e732c36687dc);
    lemma_folded_key(55, 0);
}

/// What is put off before partial round 56, and the key of that round in
/// compressed form.
proof fn lemma_deferred_56()
    ensures
        deferred(56) == (Lanes {
            a: 0x59e874ac19ffec4b63636bfa385d53c9b0809c1c1508a9283d72317beab065dnat,
            b: 0x1b2f730b056945f1caf548fb48ebf69b96feca5892058773b8ba1515302c096nat,
            c: 0x5f5c80d08a4b53b4cc37117f77b8ae970cc0e8e1c18190da425c0e335d422e4nat,
        }),
        compressed_key(68) == field_add(deferred(56).c, round_key(182)),
{
    lemma_prime();
    lemma_deferred_55();
    lemma_round_key(177, 0x68d07a3eefc78dc5b28b3f4dc93167f, 0xb8c97112d14a25b4d4db559720156386);
    lemma_round_key(178, 0x517e892228df2d4f15a3c4241c98ba2, 0x5ba0b5557375003f8748583a61836372);
    lemma_deferred_step(56, (1, 1, 1, 0, 0));
    lemma_round_key(182, 0x6b53b807265387ee582069a698323d4, 0x4c204bed60672b8d8d073bed2fede503);
    lemma_compressed_key(68, 0x4ab038d7b09eda9324577b260feaebd, 0xbcec5a7b7c7f449b312cfcd065c207e6);
    lemma_folded_key(56, 1);
}

/// What is put off before partial round 57, and the key of that round in
/// compressed form.
proof fn lemma_deferred_57()
    ensures
        deferred(57) == (Lanes {
            a: 0x2e7fd8c8a8a5c4c628bce0c8a0b03ad5484282f664c33e0fc9d32e490d52df6nat,
            b: 0x8795800902d00a1d43d4d49d2fe34d39a94fd1a77233d96c617aaa99676699nat,
            c: 0x530340640c3c629a2a3fc9bf66d90300d6d6c2edf6d0003c81ddc1cfbb6e3afnat,
        }),
        compressed_key(69) == field_add(deferred(57).c, round_key(185)),
{
    lemma_prime();
    lemma_deferred_56();
    lemma_round_key(180, 0x53d5d7863434c6629bdb1f8a648e482, 0x883543e821f0f5c1668884c0be41ec8);
    lemma_round_key(181, 0xa158126b89e6b0a600bf53f8101707, 0xb072218912dd0d9df2528f67de24fdf5);
    lemma_deferred_step(57, (1, 0, 1, 0, 0));
    lemma_round_key(185, 0x79a3d91dd8a309c632eb43d57b5c5d8, 0x38ceebd64603f68a8141ebef84280e72);
    lemma_compressed_key(69, 0x4ca71981e4df6b505d2b0d94e235608, 0x463c58052570f68e495fc80c7fdef220);
    lemma_folded_key(57, 1);
}

/// What is put off before partial round 58, and the key of that round in
/// compressed form.
proof fn lemma_deferred_58()
    ensures
        deferred(58) == (Lanes {
            a: 0x527ce41f39cfac3c78b0edabd31a9d930b7a103547f07b64c1359f8a3400546nat,
            b: 0x29e26c1578e24467a264753605d654bb648a0a9bf09ce745988f4c2225ca911nat,
            c: 0x544d3c04e076b4726b263c3ae6a2246bd37802ccaba9ca0f945329b4071ae1bnat,
        }),
        compressed_key(70) == field_add(deferred(58).c, round_key(188)),
{
    lemma_prime();
    lemma_deferred_57();
    lemma_round_key(183, 0x1097fb448406b7a6de0877efd58c01b, 0xe53be83bde9601a9acc9e0ca2091fda0);
    lemma_round_key(184, 0xcbc0ff7239d3763902396389d67b30, 0x49ce1fefde66333ce37ca441f5a31bec);
    lemma_deferred_step(58, (0, 0, 1, 0, 0));
    lemma_round_key(188, 0x19a16068c3eac9c03f1b5c5ee2485cc, 0xc163d9ab17bb035d5df6e31c3dcf8f14);
    lemma_compressed_key(70, 0x6dee9c6da4617e32aa419899c8ea813, 0x7e9b59d7e2759ffe573c15b77e413d2f);
    lemma_folded_key(58, 0);
}

/// What is put off before partial round 59, and the key of that round in
/// compressed form.
proof fn lemma_deferred_59()
    ensures
        deferred(59) == (Lanes {
            a: 0x22df670022c46416e90943adad0de8ef76a42b6ca8c32dffcb192d16a76de35nat,
            b: 0x3012fb48bdd78f8fb9f846a57ad6cce11885f5eeb239a47579f72774b636dc5nat,
            c: 0x796635dbb2766b5397887e84191b8e072f0f1abefb44c4c5289102d0f89b839nat,
        }),
        compressed_key(71) == field_add(deferred(59).c, round_key(191)),
{
    lemma_prime();
    lemma_deferred_58();
    lemma_round_key(186, 0x23fb472fe575135300f74e8f6de8fe, 0x1185078218eceb938900e7598a368db9);
    lemma_round_key(187, 0x7ac73134016d2a8a4c63a6b9494c0bd, 0x7a6ba87cc33e8a8e23ebda18bfb67c2a);
    lemma_deferred_step(59, (0, 1, 2, 0, 0));
    lemma_round_key(191, 0x5f93b02f826741414535a511ed3eb4f, 0xe85987ae57bc9807cbd94cd7513d394e);
    lemma_compressed_key(71, 0x58f9e60b34ddab84dcbe2396065a430, 0x5b4a795a4770e4541e625d0460c6f186);
    lemma_folded_key(59, 1);
}

/// What is put off before partial round 60, and the key of that round in
/// compressed form.
proof fn lemma_deferred_60()
    ensures
        deferred(60) == (Lanes {
            a: 0x765d91d15d16e4add13ca7d77cf2dfdad227285e312a0b376f3aab3b9cca157nat,
            b: 0x11b2db04d7a9a9f126a6e624c4620deb440b2f9dce795dac41fd6d56bd0a724nat,
            c: 0x72555b6642b69de6554ae0d95c4868f7c70dfc60315856c5969e9ef26fdfd1anat,
        }),
        compressed_key(72) == field_add(deferred(60).c, round_key(194)),
{
    lemma_prime();
    lemma_deferred_59();
    lemma_round_key(189, 0x1f24b4356a6bbfd4d4ef9fd16347528, 0x20ee86a925725ac392134d90def073ea);
    lemma_round_key(190, 0x3e44e7f7aeea6add59b6b4d11c60a, 0x528fb70727f35d817305971592333d36);
    lemma_deferred_step(60, (0, 0, 1, 0, 0));
    lemma_round_key(194, 0x55625941bfea6f48175192845a7ad74, 0xb0b82940ef5f393ca3830528d59cf919);
    lemma_compressed_key(72, 0x47b7b4a802a10c1e6c9c735db6c3404, 0x2d290906f274bea8fcecef17fc9af632);
    lemma_folded_key(60, 1);
}

/// What is put off before partial round 61, and the key of that round in
/// compressed form.
proof fn lemma_deferred_61()
    ensures
        deferred(61) == (Lanes {
            a: 0x561bd27c988ce17dba6a3f14432271085b553bec1583f04a3a1305f9f130f84nat,
            b: 0x3f829eec4a333fff5197b4beb708f7623479412670a6356aab8c95ab0c4bebdnat,
            c: 0x4b4c99c8272cd1473469452ac60cbcd3136dfd62d26edd6fc74338277272864nat,
        }),
        compressed_key(73) == field_add(deferred(61).c, round_key(197)),
{
    lemma_prime();
    lemma_deferred_60();
    lemma_round_key(192, 0xf0a0a88db99247d71c3d51d4197fa3, 0xfd1cc76e670607e35ca2d3bada29523a);
    lemma_round_key(193, 0x3432226916d31f3acac1e211431fd4c, 0xd2b6f2e80626af6564bdde3e77608db0);
    lemma_deferred_step(61, (1, 0, 0, -1, 0));
    lemma_round_key(197, 0x4cfd231373aa46d96283840bdb79ba6, 0xd7132775b398d324bcd206842b961aa9);
    lemma_compressed_key(73, 0x1849bcdb9ad7171096ecc936a186774, 0x84a074be0bfc0fbb9463a06a2bd430c);
    lemma_folded_key(61, 1);
}

/// What is put off before partial round 62, and the key of that round in
/// compressed form.
proof fn lemma_deferred_62()
    ensures
        deferred(62) == (Lanes {
            a: 0x117b20447d3a3de8a59fc3f7efe6ae460724714dfdd4abb1340a90cd3333815nat,
            b: 0x7e714b53517a57cdc39d1b861869e43975d76320a215f6db3fd79ea6f518889nat,
            c: 0x4984ea7895dff41d71015438ebbe650648a68716addf5a6afa1979131f0d7c7nat,
        }),
        compressed_key(74) == field_add(deferred(62).c, round_key(200)),
{
    lemma_prime();
    lemma_deferred_61();
    lemma_round_key(195, 0xddf48695b204477dfe4f8cb3ef1b39, 0x783e9b92f9276b858e2e585e318e20a4);
    lemma_round_key(196, 0x260730a657ff8f38851a679ab2a1490, 0x434ee50d4953e7c5d3194578b08ae8e3);
    lemma_deferred_step(62, (0, 0, 3, -1, 1));
    lemma_round_key(200, 0x780225456e63903b3e561384ef2e73a, 0x85b0e142b69752381535022014765f06);
    lemma_compressed_key(74, 0x41870fbe04438348af5767bddaecd8a, 0xea3b49b4217547dec4d699b1466736cc);
    lemma_folded_key(62, 1);
}

/// What is put off before partial round 63, and the key of that round in
/// compressed form.
proof fn lemma_deferred_63()
    ensures
        deferred(63) == (Lanes {
            a: 0x4919684073f32c44abade7cc8528b445af8dac3adfc1aee06ebf91ed702d423nat,
            b: 0x44e129c2882adf4a3eb9571602d66d721c1d809a56e33e44dbc3a8dd589d5a4nat,
            c: 0x421c1f3ef5e42705367a485b41292369c9b815d0446f384dc97df4880bc7f40nat,
        }),
        compressed_key(75) == field_add(deferred(63).c, round_key(203)),
{
    lemma_prime();
    lemma_deferred_62();
    lemma_round_key(198, 0x3203843c41cd453f14fa0bc0b2191a2, 0x7ebc659e74fd48f981e963de57eff25d);
    lemma_round_key(199, 0x2c2f6ae5624d1fb8435d1c86bf76c, 0x260f5e77a54b006293705872e647cc46);
    lemma_deferred_step(63, (0, 0, 2, -1, 1));
    lemma_round_key(203, 0x604fe5a6a22344aa69b05dea16b1cf2, 0x2450c186d093754cb9b84a8a03b70bc8);
    lemma_compressed_key(75, 0x226c04e598076a9fa02aa64557daf28, 0xc0ec42e3d4da68d1965029d284738b07);
    lemma_folded_key(63, 1);
}

/// What is put off before partial round 64, and the key of that round in
/// compressed form.
proof fn lemma_deferred_64()
    ensures
        deferred(64) == (Lanes {
            a: 0xa409d2e69490b3190ad15d3c3e19ae833d5e20e4d18c418adb08286690766nat,
            b: 0x2142523589602e7ede18edb862bccfb45bb8781d80dd2cd0a3340a2acc2ab3cnat,
            c: 0x6fb0dbceae9a322a1d78f1d26cc0a4fd13c27301b1fa2fb873d37efecd32e16nat,
        }),
        compressed_key(76) == field_add(deferred(64).c, round_key(206)),
{
    lemma_prime();
    lemma_deferred_63();
    lemma_round_key(201, 0x7f602ec1a80a051fd21b07f8e296061, 0x3082fc954b9a9ff641cc432a75c81887);
    lemma_round_key(202, 0x62561b0a0a72239b60f6aaf7022b7d3, 0x23fe77cd7c1ab432f0c8c118ca7e6bca);
    lemma_deferred_step(64, (1, 1, 2, 0, 0));
    lemma_round_key(206, 0x2f5dbb5055eb749a11403b93e90338b, 0x7620c51356d2c6adcbf87ab7ea0792e6);
    lemma_compressed_key(76, 0x1f0e971f0485a5b42eb92d6655c3ddb, 0x475cec4371f269a95335b2a7d6dac0fb);
    lemma_folded_key(64, 1);
}

/// What is put off before partial round 65, and the key of that round in
/// compressed form.
proof fn lemma_deferred_65()
    ensures
        deferred(65) == (Lanes {
            a: 0x65dbeb657a0a20b3bdc4c8cc0c56784291edc27f71fb7e1d607e136acc6f09dnat,
            b: 0x109a9dcf2159e7cd9d6b7fa6630fca5326711c5a6290daca6ba8cb59899dae7nat,
            c: 0x2aa0a6cb2c581c73102ca492d4a356f7b5be531287b551a97a6aa408a168adbnat,
        }),
        compressed_key(77) == field_add(deferred(65).c, round_key(209)),
{
    lemma_prime();
    lemma_deferred_64();
    lemma_round_key(204, 0x1cf9987a4044716d3dc140bf5f9b76f, 0x6eada5995905189f8682eaf88aef2b7b);
    lemma_round_key(205, 0x6bc0b2487c1eece3db47a4bdd60cf69, 0xdebee233e91b50e9ee42ce22cbfbacbf);
    lemma_deferred_step(65, (0, 1, 0, 0, 0));
    lemma_round_key(209, 0x5f5275f76425b15c89209117734ae85, 0x708351d2cf19af5fe39a32f89c2c8a89);
    lemma_compressed_key(77, 0x9f31cc2907dccbf994d35aa47ee3f4, 0xebdf3703f795047a7b40dd3926431563);
    lemma_folded_key(65, 1);
}

/// What is put off before partial round 66, and the key of that round in
/// compressed form.
proof fn lemma_deferred_66()
    ensures
        deferred(66) == (Lanes {
            a: 0x5afae73069d6de5d434927c3c848898f1704b73c9dddc800ec82f7ac6e38a02nat,
            b: 0x4e016a38f5bd397c10d90c4e7867c89309a07c4a1483fcd5b7eed51158c75f2nat,
            c: 0x67cbe7bba0cd27099380dbaa7f0607e06b21d7944ace5959a4a114d8ab8a08nat,
        }),
        compressed_key(78) == field_add(deferred(66).c, round_key(212)),
{
    lemma_prime();
    lemma_deferred_65();
    lemma_round_key(207, 0x446328f4dddae6529743c43883d59c4, 0x5f63b8a623a9cf318489e5fc4a550f61);
    lemma_round_key(208, 0x4ba30c5240cde5bca6c4010fb4b481a, 0x25817b43d358399958584d2c48f5af25);
    lemma_deferred_step(66, (1, 0, 1, -1, 1));
    lemma_round_key(212, 0x44c40e6bd52e91ad9896403ae4f543a, 0xe1c1d9ea047d75f8a6442b8feda04dca);
    lemma_compressed_key(78, 0x4b40cce78f3b641e31ce4df58ce5a42, 0xc22cfbc198c84451ffe8cca4c64bd7d2);
    lemma_folded_key(66, 0);
}

/// What is put off before partial round 67, and the key of that round in
/// compressed form.
proof fn lemma_deferred_67()
    ensures
        deferred(67) == (Lanes {
            a: 0x771c10d403c85bbcfab0bb99520a734c8ebe480605dae755d3da04dd845f776nat,
            b: 0x528c7932ff64f2707593c9ad9de391d61c8bfe2754ca81b356a17d6ef1420eanat,
            c: 0x1247cbd08231b4a6428e78f5da1370bb391924ef588832d13e9c43b7498eb46nat,
        }),
        compressed_key(79) == field_add(deferred(67).c, round_key(215)),
{
    lemma_prime();
    lemma_deferred_66();
    lemma_round_key(210, 0x576f3b5156f4763e18c7f98df3b2f7b, 0x993cdda4eb8cb92415e1be8e6af2fc17);
    lemma_round_key(211, 0x11dc3f15cba928aed5a44b55a5b026d, 0xf84a61719ed5adbb93c0e8e12d35ef3d);
    lemma_deferred_step(67, (1, 0, 1, -1, 1));
    lemma_round_key(215, 0x6ce94781c1a23fda1c7b87e0436b1b, 0x401ae11a6d757843e342f5017076a059);
    lemma_compressed_key(79, 0x191660489e4bd8a3e4563173de4a226, 0xf3ac736962fdfb70f72cb93ce50f8b9f);
    lemma_folded_key(67, 0);
}

/// What is put off before partial round 68, and the key of that round in
/// compressed form.
proof fn lemma_deferred_68()
    ensures
        deferred(68) == (Lanes {
            a: 0x3cda6d3371e99fb559660d5ce1c35327e9c8b96c9b7c124a0ad9ff0a2382f7cnat,
            b: 0x7132eb32381aadd48fde2e3a06a510a6604aeb2398c3bf89b954b186049b8nat,
            c: 0x1e349d241fd8c283c26b179753de570ba1b43740bbf1a7454090552c4ebf2e2nat,
        }),
        compressed_key(80) == field_add(deferred(68).c, round_key(218)),
{
    lemma_prime();
    lemma_deferred_67();
    lemma_round_key(213, 0x1836d733a54013ebd0ccbf4974e80ac, 0x1954bf90fe9ea4e2c914ad01166026d8);
    lemma_round_key(214, 0x3c553be9776b628a8159d306ef08472, 0x7611df8037761f00f84ca02ce731b3ac);
    lemma_deferred_step(68, (1, 1, 0, 0, 0));
    lemma_round_key(218, 0x7a8bf471f902d5abb27fea5b401483d, 0xedf97101047459682acfd7f9b65a812f);
    lemma_compressed_key(80, 0x18c0919618db971f74eb01f293f2dae, 0xa814b475103373dc7ed8dd4c7b467410);
    lemma_folded_key(68, 1);
}

/// What is put off before partial round 69, and the key of that round in
/// compressed form.
proof fn lemma_deferred_69()
    ensures
        deferred(69) == (Lanes {
            a: 0x77a1aa8182b13994998348882e15d52fe4edbc4397589cd7e0ab828d3b83c92nat,
            b: 0x5c4326cb3cb208a1610494ab963125e804323f4f22579a1e11ed30437dbc510nat,
            c: 0xdaf41db22ff98799c3f59ee4bf257a3f05dbe7a3a80815ce75f2924dee3bc1nat,
        }),
        compressed_key(81) == field_add(deferred(69).c, round_key(221)),
{
    lemma_prime();
    lemma_deferred_68();
    lemma_round_key(216, 0x381ec71fbdef3160253be9f00f4e6b9, 0xe107f457812effb7371cc2daa0acd0ed);
    lemma_round_key(217, 0x1844da9cc0eeadc6490d847320d9f3c, 0xd4fb574aa687bafdfe0ffa7bf2a8f1a1);
    lemma_deferred_step(69, (0, 0, 2, 0, 1));
    lemma_round_key(221, 0x2806c0786185986ea9891b42d565256, 0xb0312446f07435ac2cae194330bf8c42);
    lemma_compressed_key(81, 0x35b60253848530e845c8753121577d0, 0xef37002e941c3dc1fb240bd57eadc803);
    lemma_folded_key(69, 0);
}

/// What is put off before partial round 70, and the key of that round in
/// compressed form.
proof fn lemma_deferred_70()
    ensures
        deferred(70) == (Lanes {
            a: 0x4795b2e97f6ef12e9f063bbe47f43f8524d49c0e915207119c0b985c79aeebnat,
            b: 0x66fb0d97864779efe074abab843522231810df4b60002e892c2edebd9fccff3nat,
            c: 0x4ebf26cb88d7bba184bddc08302510ea9d1e353ac48a78f3f6c8ed6413e6f7dnat,
        }),
        compressed_key(82) == field_add(deferred(70).c, round_key(224)),
{
    lemma_prime();
    lemma_deferred_69();
    lemma_round_key(219, 0x633b6fb004de62441915fb51ac17445, 0x6f5a9cdff7aecb6e6b0d063839e56327);
    lemma_round_key(220, 0x179ee5cec496194771200382bfc6d17, 0xbbe546ba88fed8b17535fd70fbc50ab6);
    lemma_deferred_step(70, (1, 0, 3, -1, 1));
    lemma_round_key(224, 0x4c2a76e5ce832e8b0685cdeeea3a253, 0xae48f6606790d817bd96025e5435e259);
    lemma_compressed_key(82, 0x1ae99db1575ae91c8b43a9f71a5f362, 0x581ad9b413d97fa6fd029134957451d5);
    lemma_folded_key(70, 1);
}

/// What is put off before partial round 71, and the key of that round in
/// compressed form.
proof fn lemma_deferred_71()
    ensures
        deferred(71) == (Lanes {
            a: 0x634090d81cde0f9ad8f0ed2489290f0fdf99912fb4dfe107122b9644b764d1anat,
            b: 0x3cc0eb4764bfd74500ba4ff6cf26e3a97888495339248992fffe3d8de80bcddnat,
            c: 0x533fd2c85c0f1cb2ec1b4e96dd0115b33388a3ee3dddabba0916ac5b67ac81fnat,
        }),
        compressed_key(83) == field_add(deferred(71).c, round_key(227)),
{
    lemma_prime();
    lemma_deferred_70();
    lemma_round_key(222, 0x438703d948708ae90c7a6b8af194b8b, 0x603bb2cdfd26bfa356ac9bb6ee041393);
    lemma_round_key(223, 0x24446628f56029d7153bd3a482b7f6e, 0x1c56f4e02225c628a585d58a920035af);
    lemma_deferred_step(71, (0, 1, 1, 0, 0));
    lemma_round_key(227, 0x6b2e4a46e37af3cf952d9d34f8d6bd8, 0x4a442ebfd1ac5d17314e48922af79c5d);
    lemma_compressed_key(83, 0x3e6e1d0f3f8a0f728148ebcbd5d7d33, 0x7d7cb8feb58a37d2d1dfb357e172647b);
    lemma_folded_key(71, 1);
}

/// What is put off before partial round 72, and the key of that round in
/// compressed form.
proof fn lemma_deferred_72()
    ensures
        deferred(72) == (Lanes {
            a: 0x4a33a397c19c6ed6186d432ab65925246c518df074149b28da1336610f9cfe5nat,
            b: 0x25576c55fa021a99f025734e336dd271078dea550bb39dcf94aa05dc517707dnat,
            c: 0x126e1ba0e3cd2a1e1423e7ee4175a959b261d1cdb4307eaca2b498425f12fb4nat,
        }),
        compressed_key(84) == field_add(deferred(72).c, round_key(230)),
{
    lemma_prime();
    lemma_deferred_71();
    lemma_round_key(225, 0x78a23323520994592933c079b148aed, 0x57d5e4ce1ab122d370983b8caa0e0300);
    lemma_round_key(226, 0x79ca6c5e1025b2151144ea5937dd07c, 0xadce1aa691b19e6db87070ba51ec22c0);
    lemma_deferred_step(72, (1, 1, 2, 0, 1));
    lemma_round_key(230, 0x64e1b3f16c26c8845bdb98373e77da, 0xd3bdcc90865b0f0af96288707c18893f);
    lemma_compressed_key(84, 0x18bc36dffa8f96a659e1a171b55d270, 0x6ee3e9ad619e16f5c38dd1f4a209b8f3);
    lemma_folded_key(72, 0);
}

/// What is put off before partial round 73, and the key of that round in
/// compressed form.
proof fn lemma_deferred_73()
    ensures
        deferred(73) == (Lanes {
            a: 0x6d9b903eb949a249aaf307584eaaf74e67754b5469fd97d629579ada09d7b19nat,
            b: 0x474a5956a458d2ac56d96a4780ef70ca73c5fd69ade1fd30cc3fb6de41a9b82nat,
            c: 0x53289b740a786856aa0cce8866ddc341f9d7a6f55e0dcd52ae8bf1fde416fccnat,
        }),
        compressed_key(85) == field_add(deferred(73).c, round_key(233)),
{
    lemma_prime();
    lemma_deferred_72();
    lemma_round_key(228, 0x305d6cd95cc2eab6805d93d3d8d74e, 0x1ca7d443f11e34a18e3529e0d03435c2);
    lemma_round_key(229, 0x6097b4b8b90db14b39743ed23f8956c, 0xabb7aea70cc624a415c7c17b37fbf9a9);
    lemma_deferred_step(73, (0, 1, 1, 0, 0));
    lemma_round_key(233, 0x5951a37da53e3bbc0b3e2db1a9a235d, 0x7a03f48f443be6d659119c44aafc7522);
    lemma_compressed_key(85, 0x2c7a3ef1afb6a302b54afc3a107ff91, 0x99a16efe9a1cc3ab83fa5b64893de4ed);
    lemma_folded_key(73, 1);
}

/// What is put off before partial round 74, and the key of that round in
/// compressed form.
proof fn lemma_deferred_74()
    ensures
        deferred(74) == (Lanes {
            a: 0x3b7c8792eb2634e6a4d5496257d9d36eb9cad81954e0075837efe0cf1518496nat,
            b: 0xd707901c9c8c768d50a35036b3fd6d355625a641f15d56032ccf63d5a3b49cnat,
            c: 0x1706074890aeb6bee7e58a2f764cfe4db2343eda9ae518fc02917548dd6e7fdnat,
        }),
        compressed_key(86) == field_add(deferred(74).c, round_key(236)),
{
    lemma_prime();
    lemma_deferred_73();
    lemma_round_key(231, 0x649fafe673f21e623384d841221b734, 0x21c56014af2ffdf57f1579ae911fd335);
    lemma_round_key(232, 0x7d806dccbf1a2696b294404e849722f, 0x2baa2f4d19005a49d1ba288a77fefe30);
    lemma_deferred_step(74, (1, 1, 2, 0, 1));
    lemma_round_key(236, 0x3ca1b6400b3e51007642535f1ca9b03, 0x832ca0faa15e1c4ed82dd1efdc0763da);
    lemma_compressed_key(86, 0x53a7bd889bed07bf5e27dd8e92f6ae8, 0x5e4fe4e84b0c6dde9856e94469de4bd7);
    lemma_folded_key(74, 0);
}

/// What is put off before partial round 75, and the key of that round in
/// compressed form.
proof fn lemma_deferred_75()
    ensures
        deferred(75) == (Lanes {
            a: 0x1ccfcb5eac5d1be87f786cfed78cf0e337996cb4d9cee482c17e874abf6719fnat,
            b: 0x7423c0b7f1206f55a21695fda9350dbc1ec801fe4de899023e954103917d78nat,
            c: 0x4ac6c7a996a58b0192ab81cf7e7cd003bad6764a7a782d794eca999d4327a14nat,
        }),
        compressed_key(87) == field_add(deferred(75).c, round_key(239)),
{
    lemma_prime();
    lemma_deferred_74();
    lemma_round_key(234, 0x6d87fa479fb59524d1912c3554ae3d0, 0x10496a31bdacb542c816a1607a907731);
    lemma_round_key(235, 0x1451cccd4200fa9d473ad73466b4e8c, 0xa712a0b12bb6fc9462a3ac892acc9b2);
    lemma_deferred_step(75, (1, 0, 1, 0, 0));
    lemma_round_key(239, 0x271784e6920a68e47c4c8fab71c8f8, 0x303ef29e26f289223edf63291c0a5495);
    lemma_compressed_key(87, 0x4d383ff7ffc6318fda704aca35995f8, 0x6bec5a02ce9a0bf9d3cc0cc2f03ccea9);
    lemma_folded_key(75, 0);
}

/// What is put off before partial round 76, and the key of that round in
/// compressed form.
proof fn lemma_deferred_76()
    ensures
        deferred(76) == (Lanes {
            a: 0x54068229477b5daffa48767af10a46e507350b0a7511d7dd5d668da6c7cdfdenat,
            b: 0x6a4e082835bba92a2ede832aa976e1540e713bc5f7b308ac0d7df6a2bc61cf0nat,
            c: 0x74dc3d0088dfdb52e5b4f9a823c9b2c87c61e7a23eaf6798a7f44b8205b6178nat,
        }),
        compressed_key(88) == field_add(deferred(76).c, round_key(242)),
{
    lemma_prime();
    lemma_deferred_75();
    lemma_round_key(237, 0x52c55735b2f0a6560ad1516a8f13592, 0xb0dd024ff4162539f993a99c7a1a4d95);
    lemma_round_key(238, 0x7e04de60aa80132f0149d1dee29617d, 0xe750bd5ce3e9fa5e62951d65f6b924cd);
    lemma_deferred_step(76, (0, 1, 2, 0, 0));
    lemma_round_key(242, 0x518b7975a6d8d310eac9fe4082916f0, 0x21a7ecbadf18809746a9e061a2cb9456);
    lemma_compressed_key(88, 0x4667b6762fb8ad53d07ef7e8a65b21c, 0xa96e0b3503037710d1292519c326f5cd);
    lemma_folded_key(76, 1);
}

/// What is put off before partial round 77, and the key of that round in
/// compressed form.
proof fn lemma_deferred_77()
    ensures
        deferred(77) == (Lanes {
            a: 0x13038f665a3478a055a044ea3d25389955a054e323445cfbd1b5149a276ccbenat,
            b: 0x2f06dd572dcc4f27bb9478c43dad63ecf32e270c9eff3bd4763974be070e459nat,
            c: 0x31fe5907963415444d05e612ffbbea56313916eb42229093adbdcfee102f433nat,
        }),
        compressed_key(89) == field_add(deferred(77).c, round_key(245)),
{
    lemma_prime();
    lemma_deferred_76();
    lemma_round_key(240, 0x5c7c19061a84d5960a04b8f0adaa603, 0xc8afe93f17b7f0e56b49514af43d0c69);
    lemma_round_key(241, 0x172db5affe783af419da337cb79061e, 0x90943c2959dea1b38e4436f5482eafe);
    lemma_deferred_step(77, (1, 1, 1, 0, 0));
    lemma_round_key(245, 0x50ce323c5128dc7fdd8ddd8ba9cfe2e, 0xfd424b5de167c7257d1f766541e29ded);
    lemma_compressed_key(89, 0x2cc8b43e75cf0b42a93c39ea98bcd4, 0x6055dccc9589f02eb7fb536422e5921f);
    lemma_folded_key(77, 1);
}

/// What is put off before partial round 78, and the key of that round in
/// compressed form.
proof fn lemma_deferred_78()
    ensures
        deferred(78) == (Lanes {
            a: 0x69087c5eba22dce12b71895bdb0b1c4be9b477f1326a0d93961202cb1331a37nat,
            b: 0x661b0fb1c0265b555a001b4fc15dde8f3faf95143974a0790743151a02e742dnat,
            c: 0x176b6567cfe40c5e8b8b7060cd69ede5502716e7c7ab68d476776d88825305nat,
        }),
        compressed_key(90) == field_add(deferred(78).c, round_key(248)),
{
    lemma_prime();
    lemma_deferred_77();
    lemma_round_key(243, 0x20c5539dc45dd56d4bbc2440a9f5061, 0xd74b8ae5e37b34e8755a0315f1e196db);
    lemma_round_key(244, 0x1ea6f5fb309fa4a08bc7d516e80efc3, 0xa977b47208283cf35a9d8bc213b90b14);
    lemma_deferred_step(78, (0, 0, 1, -1, 1));
    lemma_round_key(248, 0x69bc3841eb0a310d9e988d75f09f698, 0xd4fdc9d0d69219f676b66ae7fa3d495b);
    lemma_compressed_key(90, 0x6b32ee98680871d38751447bfd76086, 0xba4df0e7be59c55f4b2ce25582bf9c60);
    lemma_folded_key(78, 0);
}

/// What is put off before partial round 79, and the key of that round in
/// compressed form.
proof fn lemma_deferred_79()
    ensures
        deferred(79) == (Lanes {
            a: 0x45e93a23a0be1b248ed8897fca1f39d983a8f0dba6f6acee78ea7b253d523d0nat,
            b: 0x5eb1969ad1a6a5fa743bc8f6f1173fad04c0c5c86983e80225a7a31f5ea2468nat,
            c: 0x739bd1c4678bbba50d4e60446c83fd163f7415899eb9627629a16c02ef57fb5nat,
        }),
        compressed_key(91) == field_add(deferred(79).c, round_key(251)),
{
    lemma_prime();
    lemma_deferred_78();
    lemma_round_key(246, 0x401e37d0e276547695538b41d3c2821, 0x5b865f5b7d1b497a8919284c613cb7d8);
    lemma_round_key(247, 0x645a0de30acc3117f2893056fc58802, 0x55daa12cc61261cc0fab9cf57c57397b);
    lemma_deferred_step(79, (1, 1, 1, -1, 0));
    lemma_round_key(251, 0x4af4a7635f8c7515966567ceec34315, 0xd0f86ac66c1e5a5ecac945f1097b82ef);
    lemma_compressed_key(91, 0x3e907927c7182faaa3b3c81358b82e7, 0x34efac1f0609f0862d635cb1387102a3);
    lemma_folded_key(79, 1);
}

/// What is put off before partial round 80, and the key of that round in
/// compressed form.
proof fn lemma_deferred_80()
    ensures
        deferred(80) == (Lanes {
            a: 0x4987207c9c6e135cdc45c2f4992314b98534fd5806351504be408d6c297dd16nat,
            b: 0x57bef70aabf5a338566e53ee89253fcbc59a4927ecdc33d65426a825197a941nat,
            c: 0x38e414b8f83c389a42ebb78307feea76dfcd5a180cac7097350cf2a388019ebnat,
        }),
        compressed_key(92) == field_add(deferred(80).c, round_key(254)),
{
    lemma_prime();
    lemma_deferred_79();
    lemma_round_key(249, 0x2684bbe315ad2c4bdd47c38fe72db4, 0x7cf0ae0c455cda5484baf523f136bdc6);
    lemma_round_key(250, 0x11e0f83c547ca5c68202e8d34e5595a, 0x88858c2afa664365e4acb821fd8a13ee);
    lemma_deferred_step(80, (0, 0, 2, -1, 1));
    lemma_round_key(254, 0x6563b9ebb6450dbad397fa5dd13c50, 0x1f326dd7f32be22e20998f59ec7bacff);
    lemma_compressed_key(92, 0x3f3a5057b3a08975f0253728e512af7, 0x8d2f437973f6a93793ea5e8424fbc6ea);
    lemma_folded_key(80, 0);
}

/// What is put off before partial round 81, and the key of that round in
/// compressed form.
proof fn lemma_deferred_81()
    ensures
        deferred(81) == (Lanes {
            a: 0x5cffaf05b26367331a2480ac61425437920b78f86d6f12f96f78cb108e765f2nat,
            b: 0x806362aea12044f84b7ed68367a6175f3eaa19c5a36c9b0a635b27334ad826nat,
            c: 0x2a7cbc6d6428b171cab649a21563f960cf106bae099c24a464a18c4eace46e6nat,
        }),
        compressed_key(93) == field_add(deferred(81).c, round_key(257)),
{
    lemma_prime();
    lemma_deferred_80();
    lemma_round_key(252, 0x4fba58cf8aaf4893cb7158908ccc18b, 0x1dc48894d2bb46225c72b11f4c74b271);
    lemma_round_key(253, 0x397c4c169115b468cc90da2e664f8c2, 0x9a7f89be0ead679a38b0f44c8a2a0e20);
    lemma_deferred_step(81, (1, 1, 0, 0, 0));
    lemma_round_key(257, 0x6a37d569d2fbc73dbff1019dc3465ec, 0xf30da46918ab020344a52f1df9a9210);
    lemma_compressed_key(93, 0x14b491d73724779f8aa74b3fd8aa582, 0x1c21e1017224726a7a946bb6ca68d8f5);
    lemma_folded_key(81, 1);
}

/// What is put off before partial round 82, and the key of that round in
/// compressed form.
proof fn lemma_deferred_82()
    ensures
        deferred(82) == (Lanes {
            a: 0x2625f53264bd1033f56a23991c845547a25b12ea9dac0b6cc0abbd247683e88nat,
            b: 0x2b943372a2be1493139ca1159a6ce25656f42978f3846786b095e990a3b1ed0nat,
            c: 0x7d48e0dfe0ff7ee070e6c141c10bb978a5b374b8d513d1f3080ae9c9e968fddnat,
        }),
        compressed_key(94) == field_add(deferred(82).c, round_key(260)),
{
    lemma_prime();
    lemma_deferred_81();
    lemma_round_key(255, 0x376edb238f7b630ea81d307f4c79f9a, 0xfec48562076dd09c36cd79e9cb817165);
    lemma_round_key(256, 0x60d4208bb50eb15f29ed22addcd50a1, 0xb337504039690eb858584cda96e2e061);
    lemma_deferred_step(82, (1, 0, 1, -1, 0));
    lemma_round_key(260, 0x5f3997e7dafcb2de0e7a23d33d2fd9e, 0xf06f4d79bd7ffa1930e8b0080d218513);
    lemma_compressed_key(94, 0x5c8278c7bbfc30ae7f60e514fe3b936, 0x7aca84c54ad1373861695ea4abb814ef);
    lemma_folded_key(82, 1);
}

/// What is put off when the partial rounds are over.
proof fn lemma_deferred_83()
    ensures
        deferred(83) == (Lanes {
            a: 0x68262cc68bef0cb16bab4a8455289ef6209038ac068383736c281078c5e8f28nat,
            b: 0x655e0534d1484f1b6e7f53dcf43196afda20cf7631fbb1103ad2f1dfc5b5760nat,
            c: 0x16413c8dd535ecafe95fb53b07b84232337b49aea43e93198aa8f4c8019be4nat,
        }),
{
    lemma_prime();
    lemma_deferred_82();
    lemma_round_key(258, 0xd3b174c7290c6bf412083ff35d2382, 0x1dc512f1df073c1b429130371ac63b1a);
    lemma_round_key(259, 0x226ed3d763477454b46eb2a5c3b8146, 0x34d974919689fb489fe55e525b980373);
    lemma_deferred_step(83, (0, 0, 1, -1, 1));
}

/// The keys of the first full round after the partial rounds take up all
/// that is left of what was put off.
pub proof fn lemma_turn_keys()
    ensures
        compressed_key(95) == field_add(deferred(83).a, round_key(261)),
        compressed_key(96) == field_add(deferred(83).b, round_key(262)),
        compressed_key(97) == field_add(deferred(83).c, round_key(263)),
{
    lemma_prime();
    lemma_deferred_83();
    lemma_round_key(261, 0x7c5eec716d94634434df335a10bbac5, 0x4f886f7f9d3c1648348c3fae8fdf14d);
    lemma_compressed_key(95, 0x64851937f9836ee5a08a7dde65e44b4, 0x67018a82ba3bf99bba0b4502755c8074);
    lemma_remainder((deferred(83).a + round_key(261)) as int, 1);
    lemma_round_key(262, 0x53cc30d7fe0f84e7e24fd22c0f9ad6, 0x8a89da85553f871ef63d2f55f57e1a7c);
    lemma_compressed_key(96, 0x6a9ac84251294769eca450ffb52b441, 0x882be77cb85f422ff9ea5e73f1d971dc);
    lemma_remainder((deferred(83).b + round_key(262)) as int, 0);
    lemma_round_key(263, 0x368821ee335d71819b95769f4741856, 0x9474a24f6e83b268fefa4cd58c4ec8fa);
    lemma_compressed_key(97, 0x37ec35b710b0d04c9a2b71f2f7bd098, 0xc6a81d991d27f0fc1884f5ca545064de);
    lemma_remainder((deferred(83).c + round_key(263)) as int, 0);
}

/// The key of partial round `i` in compressed form is the round's key for
/// the last element and what was put off for that element.
pub proof fn lemma_partial_key(i: int)
    requires
        0 <= i < 83,
    ensures
        compressed_key(12 + i) == field_add(deferred(i as nat).c, round_key(12 + 3 * i + 2)),
{
    if i == 0 {
        lemma_deferred_0();
    } else if i == 1 {
        lemma_deferred_1();
    } else if i == 2 {
        lemma_deferred_2();
    } else if i == 3 {
        lemma_deferred_3();
    } else if i == 4 {
        lemma_deferred_4();
    } else if i == 5 {
        lemma_deferred_5();
    } else if i == 6 {
        lemma_deferred_6();
    } else if i == 7 {
        lemma_deferred_7();
    } else if i == 8 {
        lemma_deferred_8();
    } else if i == 9 {
        lemma_deferred_9();
    } else if i == 10 {
        lemma_deferred_10();
    } else if i == 11 {
        lemma_deferred_11();
    } else if i == 12 {
        lemma_deferred_12();
    } else if i == 13 {
        lemma_deferred_13();
    } else if i == 14 {
        lemma_deferred_14();
    } else if i == 15 {
        lemma_deferred_15();
    } else if i == 16 {
        lemma_deferred_16();
    } else if i == 17 {
        lemma_deferred_17();
    } else if i == 18 {
        lemma_deferred_18();
    } else if i == 19 {
        lemma_deferred_19();
    } else if i == 20 {
        lemma_deferred_20();
    } else if i == 21 {
        lemma_deferred_21();
    } else if i == 22 {
        lemma_deferred_22();
    } else if i == 23 {
        lemma_deferred_23();
    } else if i == 24 {
        lemma_deferred_24();
    } else if i == 25 {
        lemma_deferred_25();
    } else if i == 26 {
        lemma_deferred_26();
    } else if i == 27 {
        lemma_deferred_27();
    } else if i == 28 {
        lemma_deferred_28();
    } else if i == 29 {
        lemma_deferred_29();
    } else if i == 30 {
        lemma_deferred_30();
    } else if i == 31 {
        lemma_deferred_31();
    } else if i == 32 {
        lemma_deferred_32();
    } else if i == 33 {
        lemma_deferred_33();
    } else if i == 34 {
        lemma_deferred_34();
    } else if i == 35 {
        lemma_deferred_35();
    } else if i == 36 {
        lemma_deferred_36();
    } else if i == 37 {
        lemma_deferred_37();
    } else if i == 38 {
        lemma_deferred_38();
    } else if i == 39 {
        lemma_deferred_39();
    } else if i == 40 {
        lemma_deferred_40();
    } else if i == 41 {
        lemma_deferred_41();
    } else if i == 42 {
        lemma_deferred_42();
    } else if i == 43 {
        lemma_deferred_43();
    } else if i == 44 {
        lemma_deferred_44();
    } else if i == 45 {
        lemma_deferred_45();
    } else if i == 46 {
        lemma_deferred_46();
    } else if i == 47 {
        lemma_deferred_47();
    } else if i == 48 {
        lemma_deferred_48();
    } else if i == 49 {
        lemma_deferred_49();
    } else if i == 50 {
        lemma_deferred_50();
    } else if i == 51 {
        lemma_deferred_51();
    } else if i == 52 {
        lemma_deferred_52();
    } else if i == 53 {
        lemma_deferred_53();
    } else if i == 54 {
        lemma_deferred_54();
    } else if i == 55 {
        lemma_deferred_55();
    } else if i == 56 {
        lemma_deferred_56();
    } else if i == 57 {
        lemma_deferred_57();
    } else if i == 58 {
        lemma_deferred_58();
    } else if i == 59 {
        lemma_deferred_59();
    } else if i == 60 {
        lemma_deferred_60();
    } else if i == 61 {
        lemma_deferred_61();
    } else if i == 62 {
        lemma_deferred_62();
    } else if i == 63 {
        lemma_deferred_63();
    } else if i == 64 {
        lemma_deferred_64();
    } else if i == 65 {
        lemma_deferred_65();
    } else if i == 66 {
        lemma_deferred_66();
    } else if i == 67 {
        lemma_deferred_67();
    } else if i == 68 {
        lemma_deferred_68();
    } else if i == 69 {
        lemma_deferred_69();
    } else if i == 70 {
        lemma_deferred_70();
    } else if i == 71 {
        lemma_deferred_71();
    } else if i == 72 {
        lemma_deferred_72();
    } else if i == 73 {
        lemma_deferred_73();
    } else if i == 74 {
        lemma_deferred_74();
    } else if i == 75 {
        lemma_deferred_75();
    } else if i == 76 {
        lemma_deferred_76();
    } else if i == 77 {
        lemma_deferred_77();
    } else if i == 78 {
        lemma_deferred_78();
    } else if i == 79 {
        lemma_deferred_79();
    } else if i == 80 {
        lemma_deferred_80();
    } else if i == 81 {
        lemma_deferred_81();
    } else if i == 82 {
        lemma_deferred_82();
    }
}

/// The keys of the full rounds are the same in both forms, but for the
/// first full round after the partial rounds: key `c` in compressed form is
/// key `r` of the rounds.
pub proof fn lemma_same_key(c: int, r: int)
    requires
        (0 <= c < 12 && r == c) || (98 <= c < 107 && r == c + 166),
    ensures
        compressed_key(c) == round_key(r),
{
    if c == 0 {
        assert(COMPRESSED_KEYS_HIGH@[0] == ROUND_KEYS_HIGH@[0]);
        assert(COMPRESSED_KEYS_LOW@[0] == ROUND_KEYS_LOW@[0]);
    } else if c == 1 {
        assert(COMPRESSED_KEYS_HIGH@[1] == ROUND_KEYS_HIGH@[1]);
        assert(COMPRESSED_KEYS_LOW@[1] == ROUND_KEYS_LOW@[1]);
    } else if c == 2 {
        assert(COMPRESSED_KEYS_HIGH@[2] == ROUND_KEYS_HIGH@[2]);
        assert(COMPRESSED_KEYS_LOW@[2] == ROUND_KEYS_LOW@[2]);
    } else if c == 3 {
        assert(COMPRESSED_KEYS_HIGH@[3] == ROUND_KEYS_HIGH@[3]);
        assert(COMPRESSED_KEYS_LOW@[3] == ROUND_KEYS_LOW@[3]);
    } else if c == 4 {
        assert(COMPRESSED_KEYS_HIGH@[4] == ROUND_KEYS_HIGH@[4]);
        assert(COMPRESSED_KEYS_LOW@[4] == ROUND_KEYS_LOW@[4]);
    } else if c == 5 {
        assert(COMPRESSED_KEYS_HIGH@[5] == ROUND_KEYS_HIGH@[5]);
        assert(COMPRESSED_KEYS_LOW@[5] == ROUND_KEYS_LOW@[5]);
    } else if c == 6 {
        assert(COMPRESSED_KEYS_HIGH@[6] == ROUND_KEYS_HIGH@[6]);
        assert(COMPRESSED_KEYS_LOW@[6] == ROUND_KEYS_LOW@[6]);
    } else if c == 7 {
        assert(COMPRESSED_KEYS_HIGH@[7] == ROUND_KEYS_HIGH@[7]);
        assert(COMPRESSED_KEYS_LOW@[7] == ROUND_KEYS_LOW@[7]);
    } else if c == 8 {
        assert(COMPRESSED_KEYS_HIGH@[8] == ROUND_KEYS_HIGH@[8]);
        assert(COMPRESSED_KEYS_LOW@[8] == ROUND_KEYS_LOW@[8]);
    } else if c == 9 {
        assert(COMPRESSED_KEYS_HIGH@[9] == ROUND_KEYS_HIGH@[9]);
        assert(COMPRESSED_KEYS_LOW@[9] == ROUND_KEYS_LOW@[9]);
    } else if c == 10 {
        assert(COMPRESSED_KEYS_HIGH@[10] == ROUND_KEYS_HIGH@[10]);
        assert(COMPRESSED_KEYS_LOW@[10] == ROUND_KEYS_LOW@[10]);
    } else if c == 11 {
        assert(COMPRESSED_KEYS_HIGH@[11] == ROUND_KEYS_HIGH@[11]);
        assert(COMPRESSED_KEYS_LOW@[11] == ROUND_KEYS_LOW@[11]);
    } else if c == 98 {
        assert(COMPRESSED_KEYS_HIGH@[98] == ROUND_KEYS_HIGH@[264]);
        assert(COMPRESSED_KEYS_LOW@[98] == ROUND_KEYS_LOW@[264]);
    } else if c == 99 {
        assert(COMPRESSED_KEYS_HIGH@[99] == ROUND_KEYS_HIGH@[265]);
        assert(COMPRESSED_KEYS_LOW@[99] == ROUND_KEYS_LOW@[265]);
    } else if c == 100 {
        assert(COMPRESSED_KEYS_HIGH@[100] == ROUND_KEYS_HIGH@[266]);
        assert(COMPRESSED_KEYS_LOW@[100] == ROUND_KEYS_LOW@[266]);
    } else if c == 101 {
        assert(COMPRESSED_KEYS_HIGH@[101] == ROUND_KEYS_HIGH@[267]);
        assert(COMPRESSED_KEYS_LOW@[101] == ROUND_KEYS_LOW@[267]);
    } else if c == 102 {
        assert(COMPRESSED_KEYS_HIGH@[102] == ROUND_KEYS_HIGH@[268]);
        assert(COMPRESSED_KEYS_LOW@[102] == ROUND_KEYS_LOW@[268]);
    } else if c == 103 {
        assert(COMPRESSED_KEYS_HIGH@[103] == ROUND_KEYS_HIGH@[269]);
        assert(COMPRESSED_KEYS_LOW@[103] == ROUND_KEYS_LOW@[269]);
    } else if c == 104 {
        assert(COMPRESSED_KEYS_HIGH@[104] == ROUND_KEYS_HIGH@[270]);
        assert(COMPRESSED_KEYS_LOW@[104] == ROUND_KEYS_LOW@[270]);
    } else if c == 105 {
        assert(COMPRESSED_KEYS_HIGH@[105] == ROUND_KEYS_HIGH@[271]);
        assert(COMPRESSED_KEYS_LOW@[105] == ROUND_KEYS_LOW@[271]);
    } else if c == 106 {
        assert(COMPRESSED_KEYS_HIGH@[106] == ROUND_KEYS_HIGH@[272]);
        assert(COMPRESSED_KEYS_LOW@[106] == ROUND_KEYS_LOW@[272]);
    }
}

} // verus!
