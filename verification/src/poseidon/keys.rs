//! The round keys of the permutation.
//!
//! Each key is a number below the Stark prime. Its upper 128 bits stand in
//! one table and its lower 128 bits at the same place in another.
use vstd::prelude::*;

verus! {

/// The upper halves of the keys of the rounds: three keys for each round, in
/// the order of the rounds.
pub const ROUND_KEYS_HIGH: [u128; 273] = [
    0x06861759ea556a2339dd92f9562a30b9,
    0x03827681995d5af9ffc8397a3d00425a,
    0x03a3956d2fad44d0e7f760a2277dc7cb,
    0x0626c47a7d421fe1f13c4282214aa759,
    0x078985f8e16505035bd6df5518cfd41f,
    0x05427f10867514a3204c659875341243,
    0x05af083f36e4c729454361733f0883c5,
    0x07d71701bde3d06d54fa3f74f7b352a5,
    0x0603da06882019009c26f8a6320a1c5e,
    0x04332a6f6bde2f288e79ce13f47ad1cd,
    0x053d0ebf61664c685310a04c4dec2e7e,
    0x05346a68894845835ae5ebcb88028d2a,
    0x0550a9e24176509ea7631ccaecb7a4ab,
    0x0219dcccb783b1cbaa62773fedd3570e,
    0x04b085eb1df4258c3453cc97445954bf,
    0x053e8a8e8a404c503af2bf3c03e420ea,
    0x05ca045c1312c09d1bd14d2537fe5c19,
    0x07c74922a456802c44997e959f27a5b0,
    0x00c0bba6880d2e686bf5088614b9684f,
    0x04526bcaec43e8ebd708dd07234c1b2d,
    0x01cc9a17b00d3607d81efaea5a75a434,
    0x0028b1e269b84c4012aa8cdbead0bc1c,
    0x062af2f41d76c4ad1d9a2482fbdaf659,
    0x05cfd7e44946daa6b2618213b0d1bf4a,
    0x07ff2afb40f3300856fdd1b94da8d3bb,
    0x05cd236bdc15b54183e90bab8ae37f8a,
    0x005463841390e22d60c946418bf0e582,
    0x024c940fff3fe8c8b2021f13eb4d7174,
    0x04e50cb07b3873268dc88f05393d9d03,
    0x062ca053e4da0fc87b430e53238d2bab,
    0x0719f20ac59d1ebcaaf37fe0b851bc24,
    0x07645ca5e87a9f916a82fe5bb90807f4,
    0x015b8aeaca96ab53200eed38d248ecda,
    0x0053d94dbbca7cb2aa8252f106292ac3,
    0x028f90b403e240f1c6f4c0a3b70edbb3,
    0x02485167dc233ba6e1161c4d0bf02515,
    0x01c8b08a90d6ee46ff7de548541dd269,
    0x0105c3bf5cba256466b75e79d146f988,
    0x0238019787f4cc0b627a65a21bef2106,
    0x015e624d7698fdf9b73dce29a5f24c46,
    0x05d3688ba56f34fdf56bc056ad8bf740,
    0x0229abdef3fef7ae9e67ed336e82dc6c,
    0x03e8096ecfcbcde2ee400801a56f236d,
    0x03ad5fec670d7039108d605aae834c7c,
    0x07cf4598c0cf143875877afdbb4df679,
    0x058aecc0081b55134a4d1c4c8f27932e,
    0x0757b4b7ee98e0a15460b71995790396,
    0x06b82800937f8981f3cd974f43322169,
    0x003a915b1814707273427e34ab8fbb7c,
    0x054afbf1bd990043f9bc01028ff44195,
    0x05e1ceb846fe1422b9524c7d01493107,
    0x07f751f98968212ebe5dff3ce06e8cb9,
    0x036f6b64463f7c29fc3180616e340536,
    0x061135c9846faf39b4511d74fe8de8b4,
    0x00b58921a3fbdbb559b78f6acfca9a21,
    0x022a4f8a5cdc7474b9d16b61c2973847,
    0x041cf6db5d6145edfeccbbc9a50b2cee,
    0x00be44689973db2b1cfc05fa8f4aec6f,
    0x039bf209c4e117e16489cda45128096d,
    0x0209cf541e5f74fc2b93310b8ce37b09,
    0x06b562e6005f34ee0bdc218ba681b6ba,
    0x000e8103a23902be5dc6d5f59253a627,
    0x06a3725548c664fd06bdc1b4d5f9bed8,
    0x067fcd6997472e8e605d0f01a8eccc5f,
    0x026144c95c8de3634075784d28c06c16,
    0x05b173c8b0eb7e9c4b3a874eb6307cda,
    0x07e1c2d6fde8ac9f87bae06ad491d391,
    0x04db779f3e5b7424996f451b156fe4e2,
    0x00bb930d8a6c6583713435ec06b6fed7,
    0x04472d73b2830565d708467e9296fb55,
    0x07ba9c303dfee2d89e10e3c883ca5ce5,
    0x021c0e3319ede47f0425dc9b2c1ed30e,
    0x02cfd61139e50ddd37b09933816e2a09,
    0x05abea18941a4976844544d92ee0eca6,
    0x077088fdb015c7947a6265e44fef6f72,
    0x03abdc9d677231325b3e3c43cfd44307,
    0x02250f430b7fe7d12e5d00b6b83e52a5,
    0x05c92ef479c11bb51fb24ef76d57912b,
    0x0235ec597391648b510f616fa8b87900,
    0x04ed4e872eb7e736207be77e9d11e38f,
    0x05f9406febca3879b756ef3f6331890b,
    0x01d9c501d9ff1fba621a9f61b68873c0,
    0x04b0de22bbd0a58534982c8e28d2f6e1,
    0x01b4d48bd38a3f8602186aabb291eca0,
    0x07558bbea55584bf1725d8aa67ddba62,
    0x01108f1a9500a52f561ea174600e266a,
    0x008913d96a4f36b12becb92b4b6ae3f8,
    0x06502262c51ad8f616926346857dec8c,
    0x07cb5fcdc00892812889280505c915bd,
    0x02eb919524a89a26f90be9781a151514,
    0x058efb6272921bc5eada46635e3567dc,
    0x062fcd49ca9c7587b436d205ffc2a395,
    0x0635895330838846e62d9acce0b625f8,
    0x07da445b81e9b3d36d47a5f4d23b92a3,
    0x02b22dab62f0817e9fc5737e189d5096,
    0x01af01472348f395bacdfed1d27664d0,
    0x076b172dbbeec5a31de313b9390f79ec,
    0x0070efaeae36f6af0f362f6cb423d200,
    0x006cb99b36e521ac0a39872686b84ee1,
    0x029fd44305a5a9a70bbf9674e544bda0,
    0x006b447ded1046e83629b184d8c36db3,
    0x0642a8b4be4ba812cbfcf55a77339b5d,
    0x0489e0a26f65a1eecc6cc6aa5b6e775c,
    0x03b19d4ef195975bbf78ab5dc2fd1d24,
    0x07d2dd994756eacba576b74790b21949,
    0x01922810cc08f50bf300df869823b9f1,
    0x052f3afaf7c9102f1d46e1d79a70745b,
    0x07ccfc88e44a0507a95260f44203086e,
    0x02949125939e6ad94100228beff83823,
    0x06cb64e3a0d37a6a4273ce4ee6929ba3,
    0x00d63b53707acf8962f05f688129bf30,
    0x00bcb1549c9cabb5d13bb968b4ea22d0,
    0x03d1c5233657ce31f5ead698fe76f649,
    0x02240b9755182ee9066c2808b1e16ea4,
    0x00cc203d8b0f90e30fe8e54f343cef59,
    0x0310c6cc475d9346e061bacdc175ea9e,
    0x07f84b639f52e57420bc947defced0d8,
    0x0584ca7f01262c5bd89c4562f57139f4,
    0x01135eefaf69b6e4af7d02f562868be3,
    0x0372082b8a6c07100a50a3d33805827a,
    0x07c3c12b819a8aad87499bac1a143fc5,
    0x04f1354c51e8f6905b84157cfeff6822,
    0x02da9f26a8271659075739ba206507a0,
    0x0287173956a2beb111b5ec29195e38cc,
    0x07273101c190ff64212420095a51c841,
    0x02dbf2a6b56b26d23ebeb61e500687de,
    0x0085b6cbb29739a6808e67f00ab89b52,
    0x03d55b5f1171efda1dacbcbadfd5b910,
    0x00aaedaa6ef2fa707d16b3b295410c0e,
    0x06aca6ebf70b1cb46c6331e9f1a5c4cc,
    0x001678602af36c28abb010f831d403d9,
    0x02022036bdf687f041b547fefdf36d4c,
    0x007bfc350957c968ca664397414bdfb8,
    0x02d639cbd418cb9fc24ea29ccd1d15ab,
    0x00ecdea7f959a4d488403d5b39687a1f,
    0x03f656bdc4fefd92b70658e2f1992ef9,
    0x00d1b8cb1561eed32319638ccab9033d,
    0x0758ffc77c62e3e0f86ef6ea01545ad7,
    0x020315ca079570df995386e96aeaa1b4,
    0x03e55cf341e7c280cb05f3d6ff9c8d9f,
    0x04d56feb32cde74feede9749739be452,
    0x04ee807aa678a9a433b6171eaa6a2544,
    0x025d2bacc8f1ee7548cb5f394de2cb6e,
    0x05f573de597ce1709fc20051f6501268,
    0x030297c3c54a505f5826a280e053cf7a,
    0x02f5e9c47c9a86e043c7526a59783f03,
    0x01bf75c7a739da8d29f9c23065ff8ccb,
    0x060563d5f852ae875989017bd5c4cfdc,
    0x07a4b1d70885aa820969635468daec94,
    0x0347bb025695e497f1e201cd62aa4600,
    0x06783ab1e1ef97bb9e7f9381eb6ab0de,
    0x0133e0280c6de90e7b3870a07823c081,
    0x00865d450ce29dc42fb5db72460b3560,
    0x01de023f840e054a35526dabacf0dee9,
    0x0055fc1e341bfdf7805015a96f724c5a,
    0x02df6557bfd4a4e7e7b27bf51552d2b5,
    0x0113a8a66962ce08d92a6bd3e9c1d55e,
    0x0271577d6ee9fa377f2c889874ba5b44,
    0x03396b33911219b6b0365c09348a561e,
    0x01e1392f2da08549c8a7d89e89918930,
    0x0661545081032013df118e1d6e7c61a3,
    0x06b14294e71cd7fb776edbd432d20eb8,
    0x07252fbbb06c2848338b1c41df31e4e5,
    0x03ccf71be7cc2a9abcf5a09807c69679,
    0x029778dc707504fa6a9f7c97b4ceef0a,
    0x039473f6f06bb99e33590d34e3bae36e,
    0x07ba7c32f875b71b895caa0215f996fd,
    0x037c1367e49cbfc403b22aac82abf83b,
    0x05c9eb899931d2f4b53ffcf833cdfa05,
    0x05f6054a4d48698ec27772fb50a7d2e5,
    0x020e6d62a2fe0fe9b0fab83e8c7d1e8b,
    0x06290a56a489ad52120c426fe0e409c2,
    0x03703f16f990342c2267a6f7ece34270,
    0x05194962daf6679b9a0c32b5a9a307ba,
    0x00e8eae20a79a7c1242c34617b01340f,
    0x0369058169d63091ae28bfb28def7cd8,
    0x0418c963bc97195a74077503ee472f22,
    0x068d07a3eefc78dc5b28b3f4dc93167f,
    0x0517e892228df2d4f15a3c4241c98ba2,
    0x05cc0f0f6cf9be94a150116e7932f8fe,
    0x053d5d7863434c6629bdb1f8a648e482,
    0x00a158126b89e6b0a600bf53f8101707,
    0x06b53b807265387ee582069a698323d4,
    0x01097fb448406b7a6de0877efd58c01b,
    0x00cbc0ff7239d3763902396389d67b30,
    0x079a3d91dd8a309c632eb43d57b5c5d8,
    0x0023fb472fe575135300f74e8f6de8fe,
    0x07ac73134016d2a8a4c63a6b9494c0bd,
    0x019a16068c3eac9c03f1b5c5ee2485cc,
    0x01f24b4356a6bbfd4d4ef9fd16347528,
    0x0003e44e7f7aeea6add59b6b4d11c60a,
    0x05f93b02f826741414535a511ed3eb4f,
    0x00f0a0a88db99247d71c3d51d4197fa3,
    0x03432226916d31f3acac1e211431fd4c,
    0x055625941bfea6f48175192845a7ad74,
    0x00ddf48695b204477dfe4f8cb3ef1b39,
    0x0260730a657ff8f38851a679ab2a1490,
    0x04cfd231373aa46d96283840bdb79ba6,
    0x03203843c41cd453f14fa0bc0b2191a2,
    0x0002c2f6ae5624d1fb8435d1c86bf76c,
    0x0780225456e63903b3e561384ef2e73a,
    0x07f602ec1a80a051fd21b07f8e296061,
    0x062561b0a0a72239b60f6aaf7022b7d3,
    0x0604fe5a6a22344aa69b05dea16b1cf2,
    0x01cf9987a4044716d3dc140bf5f9b76f,
    0x06bc0b2487c1eece3db47a4bdd60cf69,
    0x02f5dbb5055eb749a11403b93e90338b,
    0x0446328f4dddae6529743c43883d59c4,
    0x04ba30c5240cde5bca6c4010fb4b481a,
    0x05f5275f76425b15c89209117734ae85,
    0x0576f3b5156f4763e18c7f98df3b2f7b,
    0x011dc3f15cba928aed5a44b55a5b026d,
    0x044c40e6bd52e91ad9896403ae4f543a,
    0x01836d733a54013ebd0ccbf4974e80ac,
    0x03c553be9776b628a8159d306ef08472,
    0x006ce94781c1a23fda1c7b87e0436b1b,
    0x0381ec71fbdef3160253be9f00f4e6b9,
    0x01844da9cc0eeadc6490d847320d9f3c,
    0x07a8bf471f902d5abb27fea5b401483d,
    0x0633b6fb004de62441915fb51ac17445,
    0x0179ee5cec496194771200382bfc6d17,
    0x02806c0786185986ea9891b42d565256,
    0x0438703d948708ae90c7a6b8af194b8b,
    0x024446628f56029d7153bd3a482b7f6e,
    0x04c2a76e5ce832e8b0685cdeeea3a253,
    0x078a23323520994592933c079b148aed,
    0x079ca6c5e1025b2151144ea5937dd07c,
    0x06b2e4a46e37af3cf952d9d34f8d6bd8,
    0x00305d6cd95cc2eab6805d93d3d8d74e,
    0x06097b4b8b90db14b39743ed23f8956c,
    0x0064e1b3f16c26c8845bdb98373e77da,
    0x0649fafe673f21e623384d841221b734,
    0x07d806dccbf1a2696b294404e849722f,
    0x05951a37da53e3bbc0b3e2db1a9a235d,
    0x06d87fa479fb59524d1912c3554ae3d0,
    0x01451cccd4200fa9d473ad73466b4e8c,
    0x03ca1b6400b3e51007642535f1ca9b03,
    0x052c55735b2f0a6560ad1516a8f13592,
    0x07e04de60aa80132f0149d1dee29617d,
    0x00271784e6920a68e47c4c8fab71c8f8,
    0x05c7c19061a84d5960a04b8f0adaa603,
    0x0172db5affe783af419da337cb79061e,
    0x0518b7975a6d8d310eac9fe4082916f0,
    0x020c5539dc45dd56d4bbc2440a9f5061,
    0x01ea6f5fb309fa4a08bc7d516e80efc3,
    0x050ce323c5128dc7fdd8ddd8ba9cfe2e,
    0x0401e37d0e276547695538b41d3c2821,
    0x0645a0de30acc3117f2893056fc58802,
    0x069bc3841eb0a310d9e988d75f09f698,
    0x002684bbe315ad2c4bdd47c38fe72db4,
    0x011e0f83c547ca5c68202e8d34e5595a,
    0x04af4a7635f8c7515966567ceec34315,
    0x04fba58cf8aaf4893cb7158908ccc18b,
    0x0397c4c169115b468cc90da2e664f8c2,
    0x006563b9ebb6450dbad397fa5dd13c50,
    0x0376edb238f7b630ea81d307f4c79f9a,
    0x060d4208bb50eb15f29ed22addcd50a1,
    0x06a37d569d2fbc73dbff1019dc3465ec,
    0x00d3b174c7290c6bf412083ff35d2382,
    0x0226ed3d763477454b46eb2a5c3b8146,
    0x05f3997e7dafcb2de0e7a23d33d2fd9e,
    0x07c5eec716d94634434df335a10bbac5,
    0x0053cc30d7fe0f84e7e24fd22c0f9ad6,
    0x0368821ee335d71819b95769f4741856,
    0x005334f75b052c0235119816883040da,
    0x05d0af4fcbd9e056c1020cca9d871ae6,
    0x030131bce2fba5694114a19c46d24e00,
    0x05646a95a7c1ae86b34c0750ed2e641c,
    0x04b9f291d7b430c79fac36230a11f43e,
    0x05006d393d3480f41a98f19127072dc8,
    0x062c9d42199f3b260e7cb8a115143106,
    0x051274d092db5099f180b1a8a13b7f2c,
    0x061fc552b8eb75e17ad0fb7aaa4ca528,
];

/// The lower halves of the keys of the rounds.
pub const ROUND_KEYS_LOW: [u128; 273] = [
    0xe58e2ad98109ae4780b7fd8eac77fe6f,
    0x3da43f76abf28a64e4ab1a22f27508c4,
    0x2cac75dc279b2d687a0dbe17704a8309,
    0x291c78f926a2d1c6882031afe67ef4cd,
    0x2d327fcc948d772cadfe17baca05d6a6,
    0xc6e26a68b456dc1d142dcf34341696ff,
    0x847cd2c5d9d4cb8b0465e60edce699d7,
    0x2d3975f92ff84b1ac77e709bfd388882,
    0xac1b64f699ffea44e39584467a6b1d3e,
    0xeebd8870fd13a36b613b9721f6453a5d,
    0x4b9a813aaeff60d6c9e8caeb5cba78e7,
    0x6c82f99f928494ee1bfc2d15eaabfebc,
    0x8694ab61f238797098147e69dd91e5a3,
    0x0f48ad3ed77c8b262b5794daa2687000,
    0x3433b6ab9dd5a99592864c00f54a3f9a,
    0x5a465939d04b6c72e2da084e5aabb78d,
    0xfb4049cb137faf5df4f9ada962be8ca8,
    0x6820b1ed97596a969939c46c162517f4,
    0xf2526a20f91670435dc6f519bb7ab83f,
    0xc1a6203741decd72843849cd0f87934a,
    0xbef44d92edc6d5b0bfe1ec7f01d613ed,
    0xe1eb7284e2b28ed90bc7b4a4fde8f01f,
    0x0c19656bcb945b58bb724dc7a994498d,
    0x2269bed2dc0d4dbf59e285eee627df1a,
    0xcf0312ab9f16ac9bc31955dc8386a747,
    0xab40efae6fa9cd919b3248ee326e929c,
    0x2bd999084e30688e741a90bbd53a698a,
    0x7efd44a4e51890ae8226e7406144f805,
    0x153ca4c02172dd1d7fc77d45e1b04555,
    0x1d9b499c35f375d7d0b32e1189b6dcb5,
    0x19cd89100adff965951bff3d3d7e1191,
    0x4050ac92ca52f5c798935cf47d55a8fd,
    0x23d4b71d17133438015391ca63663767,
    0xb98799e908f928c196c1b658bf10b2e2,
    0x942b447c615c0f033913831c34de2d1e,
    0x9699dd2feb36e3e5b70ae6e770e22081,
    0x88f7fdaacdd58698e938607a5feca6e8,
    0x0c7c4df5ecdad643ce05b16901c4881e,
    0xd5015b85dfbd77b2965418b02dbc6bd7,
    0x5c15b52dec8172923a6ebc99a6ddc5e1,
    0xca0c2efef23b04a479f612fde5800a0a,
    0x2e26d872d98b3cce811c69ae363b444d,
    0xb2c43d1e33c92b57ac58daf2d3fc44db,
    0xe6a7cd4e1b47bf6a02265352c57db9bd,
    0x4ef597fff1f98557adca32046aeaef0a,
    0x4170c37841fef49aca0ec7a123c00ad6,
    0xe4ef3c859db5b714ec09308d65d2ca61,
    0x963d2b54fd2b7ed348dc6cc226718b5d,
    0xa044f14088fedae9606b34a60b1e9c64,
    0xc0bb609d367b76269a627689547bfbef,
    0x2c3852df2d991470b08375edf6e762bb,
    0x16709e0c48e3020c6b2b01c1bec0814b,
    0xbea7f01d226b68b6d45cd6dfbff811e4,
    0x8dd4d0e469d6703d7ed4fe4fe8e0dbac,
    0xa4ba83cc6e0ae3527fbaad907fc912b8,
    0x211d84eb2fb27b816e52821c2e2b1b1e,
    0xdeb1765c61516ffcb112f810ad67036f,
    0xac6a0ff2fdfab744ade9de11416b6831,
    0x6d148a237142dc4951df0b8239be148b,
    0x2a58282643860b5707c7eb980ea03a06,
    0x7232e122287036d18c22dd5afa95326d,
    0xa2a39c8aca11a914670e7a35dea38c8f,
    0x3ef8ca7468d68f4fbbf345de2d552f72,
    0x11a45c0aa21eb4ebb447b4af006a4a37,
    0x2a44366f77792d4064c95db6ecb5cff0,
    0x6fd875e3725061df895dc1466f350239,
    0xc448f877e53298b6370f2165c3d54ddb,
    0x8f74d61e7771f9e3fa433b57ca6627a9,
    0x825c3f71114acb93e240eed6970993dd,
    0x99d3a08814c31c4189e9579c046e878f,
    0x614d23739b7cb2052cc23612b11170e2,
    0x6356cb133e97579b822548eb9c4dc4b7,
    0x32e53b7dc4f4947565c1d41e877eb191,
    0x5bdd10b3f170b0dc2f30acd37e26d8e7,
    0x4ea28ae28b26e6eee5a751b7ce6bcc21,
    0x6b4ce33cddbc8446120dce84e6122b73,
    0x2ca94879ccfab81a7a602662c2d62c4d,
    0x12660e7bd156d6cabbb1efb79a25861b,
    0xfd08fd4208a785cffcf784a63a0fd5c6,
    0x396b5c0ba3376e855523c00b372cc668,
    0x3d46afa705908f68fb7d861c4f275a1b,
    0x5f17b0384661f06d97edf441abdaa49d,
    0x69e37ba694774c4dfa530f41c535952e,
    0xd319f0e3648b2574c49d6fd1b033d903,
    0x6b6596bbd2f4e65719702cefcead4bab,
    0x70b157d56ece95b60a44cf7a3eef17be,
    0xc209fb90caab6668567289b67087bf60,
    0xca2e99f5742b6bf223f4d8a6f32867a6,
    0xe962ea034378b343cd3a5931d2ec0e52,
    0x5baea3bc96b8cd1f01b221c4d2a1ce87,
    0xed0662c0161223e3c1c63e8de3ec3d73,
    0x94254a1ac34acd46d6955e7844d4f88e,
    0x85e5941e54bd3a2106fcf837aef5313b,
    0x78a17f119d5e6e70629f8b41fefb12e3,
    0xa9027882bef1738943b7016256118343,
    0xd5bdea769be8fcb8fbef432b790e50d5,
    0x9284163c8e4986bc5b682e5ac6360309,
    0x9b30ddb4178d46def0bdb2905b3e0862,
    0xd28c4942b8036a1c25a0e4117ccaeedf,
    0xfb3d0fe5bb3aa743fd1b8a4fc1dc6055,
    0xa11a6778d8848142aa6363d6619f9764,
    0x357cceb6946fdc51c14b58f5b8989b59,
    0xbc51a73700bd794a7acd79ae1d95882a,
    0x816428f45a06293c1b9d57b9a02e9200,
    0x71596f9cd59e55ad2884c52039013df5,
    0x8b3327e29e9e765002970ef0f2e8c5f3,
    0x39c04376aafff05771cbd4a88ed418ac,
    0x89552bbe53dcc46b376c5bcab6ea788e,
    0xf5157dd8e067bc8819e40a1ab008dd9c,
    0x72d6811dde135af4078ba6e1912e1014,
    0xad43714257949cd9ded4bf5953837fae,
    0xbb7d7460a6965702942092b32ef152d4,
    0x2792a7205ba0531a0ca25b8d8fe798c1,
    0x48e26a83074558d9279f450b79f97516,
    0xfe8d70882137de70c9b43ab6615a646c,
    0x119e937dea9d2100fa68e03c1f77910b,
    0xcbdbe033f578699397b83667049106c7,
    0x7e9f038cb32ec35abe4e1da8de3e164a,
    0xe02fdc72e01e9510531f9afa78abbbde,
    0xd350c88b56f62c6d36a0d876856a99e8,
    0x9674f132e33898f0c119e3d12462dfe6,
    0xc056ce9e29d602eb46bd9b75a23836cf,
    0x8ac360150e849950ef3973548fbd2fca,
    0x3f6a65ff50801aa75fd78dd550702843,
    0x1c7f3227f6a7a4a64ae6ba7f9201e126,
    0x749b03d3d349169699258ee4c98005fc,
    0xab89ef8d92530394e4b910efd706c7fb,
    0xb493fa9589fd937e3e06ce26b08925a3,
    0x44f7a2f8135c207824f6ae2a9b16e90c,
    0x89b80f8adc5d18915c1cd0d496ccf5e1,
    0x4d5e90003e6d37c677e9dd157fb27761,
    0x2cd3f4b0526a88aafe60a0a8f508bad2,
    0xf9b8dfe49fb63e32353d4e2e8d1d4af6,
    0x81f43a499b27a06d3c5e2176f7ad79af,
    0xe0dee3369e5fbc0f4779569f64506e0c,
    0xf22e5f2d28c490e21d4e34357154b558,
    0xfec47596f8a6f4ce6594e19fddd59254,
    0x6f281ec2941da7222d1e8b4e2ec1f192,
    0x596aacd28f83c32f29a591c95e6fcac5,
    0x2cfe76b84a9d1b0f54884b316b740d8d,
    0xe92c029007a06f6e67c81203bf650c68,
    0x497f7599fb8145d7e8089f465403c89b,
    0x1f365e56a1bc579d0f9a8ad2ef2b3821,
    0xcd4b278811924af1f237d15feb17bd49,
    0x3c1e84a1dcf8b33c682cf85ddac86deb,
    0xc6bc79b69b8709fe6a052b93a8339ae8,
    0x1da7deec83e130bcd4a27a416c72b84b,
    0x29cd27fc4e91eeabdb8e864df3c3c675,
    0xf8156c20e3131bd71005be1cd16ccf9e,
    0xb8b85cf718cd1d400f39c10e59cc5852,
    0x2c4c9c2de413691ba8aa666292e9e217,
    0xfd9c4cb99d534debd6a7bfb4e5b0dd46,
    0xa2f093695573dff94fd0216eb925beec,
    0x48efba06bcbb414ecd81a6b301664e57,
    0xc7cc7b892a292d38190631ab1a5388c4,
    0x162706a3e624faca01a307ef8d532858,
    0xf8f226da95e4d629046d73d0507f6271,
    0xca1076033db5c2de4f3367b08c008e53,
    0xf1ccb956fc673bc5291d311866538574,
    0x6170baa3c3436e6a5398f69c8f321636,
    0x33e313b1a9a5b6d69c876bd2e7d694ca,
    0xf66d00533574e46573516f0cacdeec88,
    0x1fe2a18e2406c671915cab6eb1a1d4f2,
    0x430c03645747621b7f5327cb00ff99da,
    0x9b39001d034441617757cd816dac919a,
    0x491f7bbf86a26aa55a8f5b27bb98d4c5,
    0x4ad92bab187e81417063dde91c08c027,
    0x0ed083148a5f4c92839e5d769bdab6b6,
    0xc2068375ff933eb37ae34157c0b2d951,
    0xc1557ffdc1ffd07331f2ca26c6e3b661,
    0xfd0fec827960e40a91df64664dcd7774,
    0xff17adf51f528cafb0d026d14ffd6aac,
    0x5a32ca4c101417286279f6fc315edc7c,
    0x92e2c630f70e439195b680dd296df3fd,
    0xb5fd4bea2aa58b98d2400d9b515ee5e2,
    0xd00dd7c2894fae4ffec65242afa5cd45,
    0xcfdff0973190ab189c7b93103fd78167,
    0xb8c97112d14a25b4d4db559720156386,
    0x5ba0b5557375003f8748583a61836372,
    0x74ac20ad8100c41dc9c99538792e279b,
    0x0883543e821f0f5c1668884c0be41ec8,
    0xb072218912dd0d9df2528f67de24fdf5,
    0x4c204bed60672b8d8d073bed2fede503,
    0xe53be83bde9601a9acc9e0ca2091fda0,
    0x49ce1fefde66333ce37ca441f5a31bec,
    0x38ceebd64603f68a8141ebef84280e72,
    0x1185078218eceb938900e7598a368db9,
    0x7a6ba87cc33e8a8e23ebda18bfb67c2a,
    0xc163d9ab17bb035d5df6e31c3dcf8f14,
    0x20ee86a925725ac392134d90def073ea,
    0x528fb70727f35d817305971592333d36,
    0xe85987ae57bc9807cbd94cd7513d394e,
    0xfd1cc76e670607e35ca2d3bada29523a,
    0xd2b6f2e80626af6564bdde3e77608db0,
    0xb0b82940ef5f393ca3830528d59cf919,
    0x783e9b92f9276b858e2e585e318e20a4,
    0x434ee50d4953e7c5d3194578b08ae8e3,
    0xd7132775b398d324bcd206842b961aa9,
    0x7ebc659e74fd48f981e963de57eff25d,
    0x260f5e77a54b006293705872e647cc46,
    0x85b0e142b69752381535022014765f06,
    0x3082fc954b9a9ff641cc432a75c81887,
    0x23fe77cd7c1ab432f0c8c118ca7e6bca,
    0x2450c186d093754cb9b84a8a03b70bc8,
    0x6eada5995905189f8682eaf88aef2b7b,
    0xdebee233e91b50e9ee42ce22cbfbacbf,
    0x7620c51356d2c6adcbf87ab7ea0792e6,
    0x5f63b8a623a9cf318489e5fc4a550f61,
    0x25817b43d358399958584d2c48f5af25,
    0x708351d2cf19af5fe39a32f89c2c8a89,
    0x993cdda4eb8cb92415e1be8e6af2fc17,
    0xf84a61719ed5adbb93c0e8e12d35ef3d,
    0xe1c1d9ea047d75f8a6442b8feda04dca,
    0x1954bf90fe9ea4e2c914ad01166026d8,
    0x7611df8037761f00f84ca02ce731b3ac,
    0x401ae11a6d757843e342f5017076a059,
    0xe107f457812effb7371cc2daa0acd0ed,
    0xd4fb574aa687bafdfe0ffa7bf2a8f1a1,
    0xedf97101047459682acfd7f9b65a812f,
    0x6f5a9cdff7aecb6e6b0d063839e56327,
    0xbbe546ba88fed8b17535fd70fbc50ab6,
    0xb0312446f07435ac2cae194330bf8c42,
    0x603bb2cdfd26bfa356ac9bb6ee041393,
    0x1c56f4e02225c628a585d58a920035af,
    0xae48f6606790d817bd96025e5435e259,
    0x57d5e4ce1ab122d370983b8caa0e0300,
    0xadce1aa691b19e6db87070ba51ec22c0,
    0x4a442ebfd1ac5d17314e48922af79c5d,
    0x1ca7d443f11e34a18e3529e0d03435c2,
    0xabb7aea70cc624a415c7c17b37fbf9a9,
    0xd3bdcc90865b0f0af96288707c18893f,
    0x21c56014af2ffdf57f1579ae911fd335,
    0x2baa2f4d19005a49d1ba288a77fefe30,
    0x7a03f48f443be6d659119c44aafc7522,
    0x10496a31bdacb542c816a1607a907731,
    0x0a712a0b12bb6fc9462a3ac892acc9b2,
    0x832ca0faa15e1c4ed82dd1efdc0763da,
    0xb0dd024ff4162539f993a99c7a1a4d95,
    0xe750bd5ce3e9fa5e62951d65f6b924cd,
    0x303ef29e26f289223edf63291c0a5495,
    0xc8afe93f17b7f0e56b49514af43d0c69,
    0x090943c2959dea1b38e4436f5482eafe,
    0x21a7ecbadf18809746a9e061a2cb9456,
    0xd74b8ae5e37b34e8755a0315f1e196db,
    0xa977b47208283cf35a9d8bc213b90b14,
    0xfd424b5de167c7257d1f766541e29ded,
    0x5b865f5b7d1b497a8919284c613cb7d8,
    0x55daa12cc61261cc0fab9cf57c57397b,
    0xd4fdc9d0d69219f676b66ae7fa3d495b,
    0x7cf0ae0c455cda5484baf523f136bdc6,
    0x88858c2afa664365e4acb821fd8a13ee,
    0xd0f86ac66c1e5a5ecac945f1097b82ef,
    0x1dc48894d2bb46225c72b11f4c74b271,
    0x9a7f89be0ead679a38b0f44c8a2a0e20,
    0x1f326dd7f32be22e20998f59ec7bacff,
    0xfec48562076dd09c36cd79e9cb817165,
    0xb337504039690eb858584cda96e2e061,
    0x0f30da46918ab020344a52f1df9a9210,
    0x1dc512f1df073c1b429130371ac63b1a,
    0x34d974919689fb489fe55e525b980373,
    0xf06f4d79bd7ffa1930e8b0080d218513,
    0x04f886f7f9d3c1648348c3fae8fdf14d,
    0x8a89da85553f871ef63d2f55f57e1a7c,
    0x9474a24f6e83b268fefa4cd58c4ec8fa,
    0x72c6d0a61538bdfff46d6a242bfeb7a1,
    0x8f80ee4af2ec6547cd49d6dca50aa431,
    0xb4699dc00f1d53ba5ab99537901b1e65,
    0x538f93f13161be3c4957660f2e788965,
    0x78581f5259692b52c90df47b7d4ec01a,
    0x3e00becf6ceb4d73d890e74abae01a13,
    0xacf4f702e6b346fd202dc3b26a679d80,
    0x7606836eabd8af54bf1d9ac2dc5717a5,
    0xf415e14f0d9cdbed861a8db0bfff0c5b,
];

/// The upper halves of the keys in compressed form: three keys for each full
/// round, and one for each partial round, into which the other two have been
/// folded.
pub const COMPRESSED_KEYS_HIGH: [u128; 107] = [
    0x06861759ea556a2339dd92f9562a30b9,
    0x03827681995d5af9ffc8397a3d00425a,
    0x03a3956d2fad44d0e7f760a2277dc7cb,
    0x0626c47a7d421fe1f13c4282214aa759,
    0x078985f8e16505035bd6df5518cfd41f,
    0x05427f10867514a3204c659875341243,
    0x05af083f36e4c729454361733f0883c5,
    0x07d71701bde3d06d54fa3f74f7b352a5,
    0x0603da06882019009c26f8a6320a1c5e,
    0x04332a6f6bde2f288e79ce13f47ad1cd,
    0x053d0ebf61664c685310a04c4dec2e7e,
    0x05346a68894845835ae5ebcb88028d2a,
    0x04b085eb1df4258c3453cc97445954bf,
    0x0731cfd19d508285965f12a079b2a169,
    0x0217d08b5339852bcc6f7a774936b3e7,
    0x000c935dd633b0fd63599b13c850dab3,
    0x052af8d378dd6772ee187ed23f79a7d9,
    0x0294851c98b2682f1ec9918b9f12fcce,
    0x011b59990bacc280824d1021418d4f58,
    0x04b4df56e3d7753f91960d59ae099b9b,
    0x005eecfa15a757dc3ecae9fbd8ff06e4,
    0x0680bfdd8b9680e04659227634a1ec52,
    0x01d0bf8fab0a1a7a14e2930794f7a306,
    0x02c2c8c79f808ace54ba207053c0d412,
    0x0354ec9ed01d20ec52aae19a9b858d34,
    0x030df20fcf6427bac38bb5d1a42287f4,
    0x0528cf329c64e7ee3040bafbdeff61e2,
    0x040416f24f623534634789660df5435e,
    0x00380c8f936e2ed9fd488ae3bac7dce3,
    0x01cc4f5d5603d176f1a8e344392efd2d,
    0x05728917af5da91f9539310d99f5d142,
    0x00efb450a9e86e1a46e295a348f0f235,
    0x02020d74d36c421ae1a025616b342d07,
    0x07cfb309b75fd3bf2705558ae511dc82,
    0x04651e48b2e9349a5365e009ece62680,
    0x00d77627b270f65122d0269719da923c,
    0x0199ad3d641b54c4d571b3fe37773a8b,
    0x044f33640a8ecfd3973e2e9172a73334,
    0x07e4adf9894d964189d00a02dcf1e6be,
    0x03641fa5b3c90452f5ff808f8a9817ed,
    0x03de5729efd2fcbd897a49a78fa923fc,
    0x062691891a3fc1e27f622966ca0be20c,
    0x06608d3bf11c18e4688739f72205763d,
    0x011c9c9b39cac71e3419726ce779116d,
    0x061e23b58203269caef0850f74da27b9,
    0x04182cd9ab1d9488f870a572010bc2a3,
    0x0520fe6c4a096793f9055e6823116d15,
    0x0346b2b2d6e5810129e093093dcd3dfa,
    0x01359ca923e7f1448ec1dd2a3684bee4,
    0x047c655f55cf307800dfefdad24de86f,
    0x04ab291f16555fa8a968cd7c9c285a95,
    0x039f409c7c782101223d1f6f7d86c21a,
    0x044be36b782f882ad86eecb0cd6beb02,
    0x050a1dfde9b504ad2906db6eb5b50720,
    0x05c753c14da89e287b181c0dd11ac6c3,
    0x02cf6306ed32232106c8015a3b180f38,
    0x02c2014634d52e27420873cf34742909,
    0x03cfb9c5bd93e02b2fdacde2058e33e5,
    0x0363fa71a383cf3897933f1411fc5f80,
    0x0728199657067ee16947b3fc76271676,
    0x03fdfbd47d27f3d34f0723b728e8921d,
    0x07f241379440cacd7dc0efbe7858eb7d,
    0x05b2e8771ea9a0004e3bf056f3727797,
    0x00a8ddbce708de44a7e0b3b0333146e1,
    0x02d521e0daca24e431aa47cd90a0f551,
    0x06cdbc0f2aa54d2cf7d5ac3b93f855af,
    0x03dd96a17111ec8f4c5da3ad6794c096,
    0x05eafb1edeedc5c07ac07fdd06159344,
    0x04ab038d7b09eda9324577b260feaebd,
    0x04ca71981e4df6b505d2b0d94e235608,
    0x06dee9c6da4617e32aa419899c8ea813,
    0x058f9e60b34ddab84dcbe2396065a430,
    0x047b7b4a802a10c1e6c9c735db6c3404,
    0x01849bcdb9ad7171096ecc936a186774,
    0x041870fbe04438348af5767bddaecd8a,
    0x0226c04e598076a9fa02aa64557daf28,
    0x01f0e971f0485a5b42eb92d6655c3ddb,
    0x009f31cc2907dccbf994d35aa47ee3f4,
    0x04b40cce78f3b641e31ce4df58ce5a42,
    0x0191660489e4bd8a3e4563173de4a226,
    0x018c0919618db971f74eb01f293f2dae,
    0x035b60253848530e845c8753121577d0,
    0x01ae99db1575ae91c8b43a9f71a5f362,
    0x03e6e1d0f3f8a0f728148ebcbd5d7d33,
    0x018bc36dffa8f96a659e1a171b55d270,
    0x02c7a3ef1afb6a302b54afc3a107ff91,
    0x053a7bd889bed07bf5e27dd8e92f6ae8,
    0x04d383ff7ffc6318fda704aca35995f8,
    0x04667b6762fb8ad53d07ef7e8a65b21c,
    0x002cc8b43e75cf0b42a93c39ea98bcd4,
    0x06b32ee98680871d38751447bfd76086,
    0x03e907927c7182faaa3b3c81358b82e7,
    0x03f3a5057b3a08975f0253728e512af7,
    0x014b491d73724779f8aa74b3fd8aa582,
    0x05c8278c7bbfc30ae7f60e514fe3b936,
    0x064851937f9836ee5a08a7dde65e44b4,
    0x06a9ac84251294769eca450ffb52b441,
    0x037ec35b710b0d04c9a2b71f2f7bd098,
    0x005334f75b052c0235119816883040da,
    0x05d0af4fcbd9e056c1020cca9d871ae6,
    0x030131bce2fba5694114a19c46d24e00,
    0x05646a95a7c1ae86b34c0750ed2e641c,
    0x04b9f291d7b430c79fac36230a11f43e,
    0x05006d393d3480f41a98f19127072dc8,
    0x062c9d42199f3b260e7cb8a115143106,
    0x051274d092db5099f180b1a8a13b7f2c,
    0x061fc552b8eb75e17ad0fb7aaa4ca528,
];

/// The lower halves of the keys in compressed form.
pub const COMPRESSED_KEYS_LOW: [u128; 107] = [
    0xe58e2ad98109ae4780b7fd8eac77fe6f,
    0x3da43f76abf28a64e4ab1a22f27508c4,
    0x2cac75dc279b2d687a0dbe17704a8309,
    0x291c78f926a2d1c6882031afe67ef4cd,
    0x2d327fcc948d772cadfe17baca05d6a6,
    0xc6e26a68b456dc1d142dcf34341696ff,
    0x847cd2c5d9d4cb8b0465e60edce699d7,
    0x2d3975f92ff84b1ac77e709bfd388882,
    0xac1b64f699ffea44e39584467a6b1d3e,
    0xeebd8870fd13a36b613b9721f6453a5d,
    0x4b9a813aaeff60d6c9e8caeb5cba78e7,
    0x6c82f99f928494ee1bfc2d15eaabfebc,
    0x3433b6ab9dd5a99592864c00f54a3f9a,
    0xfdfe0a8e610e6f2d5ca5d7b0961f6d96,
    0x2ecd9e1f9a73d743f8079c1e3587eeaa,
    0xcb966ba510c81b20959e267008518c6e,
    0x8cf5a0a387103971467fe940e7b8b2be,
    0xaa6e28a7b79b2e506362cda595f8ab75,
    0x9da8c30063471494c204b169ab086064,
    0xeb2ce690e6bbdcd0b599d49ceb2acd6a,
    0x66243534f30629fc5f1cf09eb5161ac4,
    0x82e5a7cef81b15677f8448bda4279059,
    0x5c17e10b1cedd791b8877d97acd85053,
    0xc0fc11a610f14c48876701a37e32f464,
    0x74d8234c11ad7bce630ad56c54afa562,
    0xe4136ac5892340e994e6ea28deec1e55,
    0x41d99b424091e31472eda296fc9c6778,
    0xbf0c3e0c69e6c5b5ff6e757930bd1960,
    0x15ba21b11e88339cd5444435ccc9ea38,
    0x03ad0541832829d245e0e2291f255b75,
    0xe011d6c8e015ea5423c502aa99c09752,
    0x90925107d17c56d7c788fecc17219aa1,
    0x84b8fcd977de6c53a6c26693774dca99,
    0x335050969f4bf84fa2b7b4f583989287,
    0x9d7b7d02a617eb98c785a784812d75e9,
    0xcae822d9aad0f0947a3b5c8f71c0dcc7,
    0x82b003377f0dd8b7d3b7758c32908ea8,
    0x82b2d297be2da289319e72d137cdfe6e,
    0x7f801234f5216eab6b6f366b6701abf7,
    0xa7c6aecfb5471dfdca559fb4e711ee90,
    0x306df32e6e2f0e02d0eee2c2cc3f3533,
    0x06563500c8f06c9bdb77bd2882d6c994,
    0x1590cc4f9885ae1d86e96e0604baa0be,
    0x07249f51cbdda4fd98c25cbbf593a316,
    0x748e3312ea40c6844dd68c557c462ad7,
    0xd9878440b25951e4ce010855cf83bdc8,
    0xf1df2fe89d306f9965f6a59f4f3ecb71,
    0x99ed6d71f47723ea3fbe4d4e2fd4afa1,
    0xe8b682c8e8e973acea72877ce9f7e6cf,
    0xde9deadab145a1b392420f37b95d9675,
    0x98efd925f2d58b7aa38ad87dca8441a8,
    0x22c44ef959510e392c9c7c5d17c629c5,
    0xe1a2f9fb5587a3babfacead0cafb6052,
    0x3cd1ceb394c52ce7107679a53a0d538b,
    0x680bdd7f1017dae083e7aebbeab183ab,
    0x6eee93e15f7b4f4fa57746525fc0520c,
    0x1dfc6380689bd4f54d7d8e502c1c3a09,
    0x975c446345f010d850fc09cdf86ed8a1,
    0x6e311e84f72cb50a9ea4e1281f6b0299,
    0xb4901b2a3686cffebcb960da91b05df8,
    0xc9bde34a9872df5a652a078d7e4ee021,
    0xe53cc02ca7d24197945c453398eff449,
    0xcbb457a27574d5f104354e52a5c25f0b,
    0xe910245be6bf822ea057a081bda2e23e,
    0xc12270e533835613edce2e19aa9b0f61,
    0x03eef7b07aaee00341a6266c30e08ae6,
    0x1ceee452cbe92c7a0941112b36ed9bf3,
    0xa2cfb92196a65d9ec0c5e732c36687dc,
    0xbcec5a7b7c7f449b312cfcd065c207e6,
    0x463c58052570f68e495fc80c7fdef220,
    0x7e9b59d7e2759ffe573c15b77e413d2f,
    0x5b4a795a4770e4541e625d0460c6f186,
    0x2d290906f274bea8fcecef17fc9af632,
    0x084a074be0bfc0fbb9463a06a2bd430c,
    0xea3b49b4217547dec4d699b1466736cc,
    0xc0ec42e3d4da68d1965029d284738b07,
    0x475cec4371f269a95335b2a7d6dac0fb,
    0xebdf3703f795047a7b40dd3926431563,
    0xc22cfbc198c84451ffe8cca4c64bd7d2,
    0xf3ac736962fdfb70f72cb93ce50f8b9f,
    0xa814b475103373dc7ed8dd4c7b467410,
    0xef37002e941c3dc1fb240bd57eadc803,
    0x581ad9b413d97fa6fd029134957451d5,
    0x7d7cb8feb58a37d2d1dfb357e172647b,
    0x6ee3e9ad619e16f5c38dd1f4a209b8f3,
    0x99a16efe9a1cc3ab83fa5b64893de4ed,
    0x5e4fe4e84b0c6dde9856e94469de4bd7,
    0x6bec5a02ce9a0bf9d3cc0cc2f03ccea9,
    0xa96e0b3503037710d1292519c326f5cd,
    0x6055dccc9589f02eb7fb536422e5921f,
    0xba4df0e7be59c55f4b2ce25582bf9c60,
    0x34efac1f0609f0862d635cb1387102a3,
    0x8d2f437973f6a93793ea5e8424fbc6ea,
    0x1c21e1017224726a7a946bb6ca68d8f5,
    0x7aca84c54ad1373861695ea4abb814ef,
    0x67018a82ba3bf99bba0b4502755c8074,
    0x882be77cb85f422ff9ea5e73f1d971dc,
    0xc6a81d991d27f0fc1884f5ca545064de,
    0x72c6d0a61538bdfff46d6a242bfeb7a1,
    0x8f80ee4af2ec6547cd49d6dca50aa431,
    0xb4699dc00f1d53ba5ab99537901b1e65,
    0x538f93f13161be3c4957660f2e788965,
    0x78581f5259692b52c90df47b7d4ec01a,
    0x3e00becf6ceb4d73d890e74abae01a13,
    0xacf4f702e6b346fd202dc3b26a679d80,
    0x7606836eabd8af54bf1d9ac2dc5717a5,
    0xf415e14f0d9cdbed861a8db0bfff0c5b,
];

} // verus!
