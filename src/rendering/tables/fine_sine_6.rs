use vstd::prelude::*;

verus! {

/// Entries 6144 to 7167 of the sine table, each stored as the bits of a 32-bit integer.
pub closed spec fn entry(i: int) -> i32 {
    ENTRIES[i] as i32
}

pub fn entry_at(i: usize) -> (r: i32)
    requires
        i < 1024,
    ensures
        r == entry(i as int),
{
    #[verifier::truncate] (ENTRIES[i] as i32)
}

const ENTRIES: [u32; 1024] = [
    4294901761, 4294901761, 4294901761, 4294901761, 4294901761, 4294901761, 4294901761, 4294901762, 4294901762, 4294901762, 4294901763, 4294901763,
    4294901764, 4294901764, 4294901765, 4294901765, 4294901766, 4294901766, 4294901767, 4294901768, 4294901769, 4294901769, 4294901770, 4294901771,
    4294901772, 4294901773, 4294901774, 4294901775, 4294901776, 4294901777, 4294901778, 4294901780, 4294901781, 4294901782, 4294901783, 4294901785,
    4294901786, 4294901788, 4294901789, 4294901791, 4294901792, 4294901794, 4294901795, 4294901797, 4294901799, 4294901800, 4294901802, 4294901804,
    4294901806, 4294901808, 4294901810, 4294901812, 4294901814, 4294901816, 4294901818, 4294901820, 4294901822, 4294901824, 4294901826, 4294901829,
    4294901831, 4294901833, 4294901836, 4294901838, 4294901841, 4294901843, 4294901846, 4294901848, 4294901851, 4294901854, 4294901856, 4294901859,
    4294901862, 4294901865, 4294901867, 4294901870, 4294901873, 4294901876, 4294901879, 4294901882, 4294901885, 4294901888, 4294901892, 4294901895,
    4294901898, 4294901901, 4294901905, 4294901908, 4294901911, 4294901915, 4294901918, 4294901922, 4294901925, 4294901929, 4294901933, 4294901936,
    4294901940, 4294901944, 4294901947, 4294901951, 4294901955, 4294901959, 4294901963, 4294901967, 4294901971, 4294901975, 4294901979, 4294901983,
    4294901987, 4294901991, 4294901996, 4294902000, 4294902004, 4294902009, 4294902013, 4294902017, 4294902022, 4294902026, 4294902031, 4294902036,
    4294902040, 4294902045, 4294902050, 4294902054, 4294902059, 4294902064, 4294902069, 4294902074, 4294902079, 4294902084, 4294902089, 4294902094,
    4294902099, 4294902104, 4294902109, 4294902114, 4294902119, 4294902125, 4294902130, 4294902135, 4294902141, 4294902146, 4294902152, 4294902157,
    4294902163, 4294902168, 4294902174, 4294902179, 4294902185, 4294902191, 4294902197, 4294902202, 4294902208, 4294902214, 4294902220, 4294902226,
    4294902232, 4294902238, 4294902244, 4294902250, 4294902256, 4294902263, 4294902269, 4294902275, 4294902281, 4294902288, 4294902294, 4294902301,
    4294902307, 4294902314, 4294902320, 4294902327, 4294902333, 4294902340, 4294902347, 4294902353, 4294902360, 4294902367, 4294902374, 4294902381,
    4294902388, 4294902394, 4294902401, 4294902409, 4294902416, 4294902423, 4294902430, 4294902437, 4294902444, 4294902452, 4294902459, 4294902466,
    4294902474, 4294902481, 4294902488, 4294902496, 4294902503, 4294902511, 4294902519, 4294902526, 4294902534, 4294902542, 4294902549, 4294902557,
    4294902565, 4294902573, 4294902581, 4294902589, 4294902597, 4294902605, 4294902613, 4294902621, 4294902629, 4294902637, 4294902645, 4294902654,
    4294902662, 4294902670, 4294902679, 4294902687, 4294902696, 4294902704, 4294902712, 4294902721, 4294902730, 4294902738, 4294902747, 4294902756,
    4294902764, 4294902773, 4294902782, 4294902791, 4294902800, 4294902809, 4294902818, 4294902827, 4294902836, 4294902845, 4294902854, 4294902863,
    4294902872, 4294902882, 4294902891, 4294902900, 4294902909, 4294902919, 4294902928, 4294902938, 4294902947, 4294902957, 4294902966, 4294902976,
    4294902986, 4294902995, 4294903005, 4294903015, 4294903025, 4294903035, 4294903044, 4294903054, 4294903064, 4294903074, 4294903084, 4294903094,
    4294903104, 4294903115, 4294903125, 4294903135, 4294903145, 4294903156, 4294903166, 4294903176, 4294903187, 4294903197, 4294903208, 4294903218,
    4294903229, 4294903239, 4294903250, 4294903261, 4294903271, 4294903282, 4294903293, 4294903304, 4294903315, 4294903325, 4294903336, 4294903347,
    4294903358, 4294903369, 4294903381, 4294903392, 4294903403, 4294903414, 4294903425, 4294903437, 4294903448, 4294903459, 4294903471, 4294903482,
    4294903493, 4294903505, 4294903517, 4294903528, 4294903540, 4294903551, 4294903563, 4294903575, 4294903587, 4294903598, 4294903610, 4294903622,
    4294903634, 4294903646, 4294903658, 4294903670, 4294903682, 4294903694, 4294903706, 4294903718, 4294903731, 4294903743, 4294903755, 4294903768,
    4294903780, 4294903792, 4294903805, 4294903817, 4294903830, 4294903842, 4294903855, 4294903867, 4294903880, 4294903893, 4294903906, 4294903918,
    4294903931, 4294903944, 4294903957, 4294903970, 4294903983, 4294903996, 4294904009, 4294904022, 4294904035, 4294904048, 4294904061, 4294904075,
    4294904088, 4294904101, 4294904114, 4294904128, 4294904141, 4294904155, 4294904168, 4294904182, 4294904195, 4294904209, 4294904222, 4294904236,
    4294904250, 4294904264, 4294904277, 4294904291, 4294904305, 4294904319, 4294904333, 4294904347, 4294904361, 4294904375, 4294904389, 4294904403,
    4294904417, 4294904431, 4294904446, 4294904460, 4294904474, 4294904488, 4294904503, 4294904517, 4294904532, 4294904546, 4294904561, 4294904575,
    4294904590, 4294904604, 4294904619, 4294904634, 4294904648, 4294904663, 4294904678, 4294904693, 4294904708, 4294904723, 4294904738, 4294904753,
    4294904768, 4294904783, 4294904798, 4294904813, 4294904828, 4294904843, 4294904859, 4294904874, 4294904889, 4294904905, 4294904920, 4294904936,
    4294904951, 4294904967, 4294904982, 4294904998, 4294905013, 4294905029, 4294905045, 4294905060, 4294905076, 4294905092, 4294905108, 4294905124,
    4294905140, 4294905155, 4294905171, 4294905188, 4294905204, 4294905220, 4294905236, 4294905252, 4294905268, 4294905284, 4294905301, 4294905317,
    4294905333, 4294905350, 4294905366, 4294905383, 4294905399, 4294905416, 4294905432, 4294905449, 4294905465, 4294905482, 4294905499, 4294905516,
    4294905532, 4294905549, 4294905566, 4294905583, 4294905600, 4294905617, 4294905634, 4294905651, 4294905668, 4294905685, 4294905702, 4294905719,
    4294905737, 4294905754, 4294905771, 4294905789, 4294905806, 4294905823, 4294905841, 4294905858, 4294905876, 4294905893, 4294905911, 4294905929,
    4294905946, 4294905964, 4294905982, 4294905999, 4294906017, 4294906035, 4294906053, 4294906071, 4294906089, 4294906107, 4294906125, 4294906143,
    4294906161, 4294906179, 4294906197, 4294906215, 4294906234, 4294906252, 4294906270, 4294906289, 4294906307, 4294906325, 4294906344, 4294906362,
    4294906381, 4294906399, 4294906418, 4294906437, 4294906455, 4294906474, 4294906493, 4294906511, 4294906530, 4294906549, 4294906568, 4294906587,
    4294906606, 4294906625, 4294906644, 4294906663, 4294906682, 4294906701, 4294906720, 4294906740, 4294906759, 4294906778, 4294906797, 4294906817,
    4294906836, 4294906855, 4294906875, 4294906894, 4294906914, 4294906933, 4294906953, 4294906973, 4294906992, 4294907012, 4294907032, 4294907052,
    4294907071, 4294907091, 4294907111, 4294907131, 4294907151, 4294907171, 4294907191, 4294907211, 4294907231, 4294907251, 4294907271, 4294907292,
    4294907312, 4294907332, 4294907352, 4294907373, 4294907393, 4294907413, 4294907434, 4294907454, 4294907475, 4294907495, 4294907516, 4294907537,
    4294907557, 4294907578, 4294907599, 4294907619, 4294907640, 4294907661, 4294907682, 4294907703, 4294907724, 4294907745, 4294907766, 4294907787,
    4294907808, 4294907829, 4294907850, 4294907871, 4294907892, 4294907914, 4294907935, 4294907956, 4294907978, 4294907999, 4294908020, 4294908042,
    4294908063, 4294908085, 4294908106, 4294908128, 4294908150, 4294908171, 4294908193, 4294908215, 4294908237, 4294908258, 4294908280, 4294908302,
    4294908324, 4294908346, 4294908368, 4294908390, 4294908412, 4294908434, 4294908456, 4294908478, 4294908501, 4294908523, 4294908545, 4294908567,
    4294908590, 4294908612, 4294908634, 4294908657, 4294908679, 4294908702, 4294908724, 4294908747, 4294908769, 4294908792, 4294908815, 4294908837,
    4294908860, 4294908883, 4294908906, 4294908929, 4294908952, 4294908974, 4294908997, 4294909020, 4294909043, 4294909066, 4294909089, 4294909113,
    4294909136, 4294909159, 4294909182, 4294909205, 4294909229, 4294909252, 4294909275, 4294909299, 4294909322, 4294909346, 4294909369, 4294909393,
    4294909416, 4294909440, 4294909463, 4294909487, 4294909511, 4294909534, 4294909558, 4294909582, 4294909606, 4294909630, 4294909654, 4294909678,
    4294909702, 4294909726, 4294909750, 4294909774, 4294909798, 4294909822, 4294909846, 4294909870, 4294909895, 4294909919, 4294909943, 4294909967,
    4294909992, 4294910016, 4294910041, 4294910065, 4294910090, 4294910114, 4294910139, 4294910163, 4294910188, 4294910213, 4294910237, 4294910262,
    4294910287, 4294910312, 4294910337, 4294910361, 4294910386, 4294910411, 4294910436, 4294910461, 4294910486, 4294910511, 4294910536, 4294910562,
    4294910587, 4294910612, 4294910637, 4294910663, 4294910688, 4294910713, 4294910739, 4294910764, 4294910789, 4294910815, 4294910840, 4294910866,
    4294910892, 4294910917, 4294910943, 4294910968, 4294910994, 4294911020, 4294911046, 4294911071, 4294911097, 4294911123, 4294911149, 4294911175,
    4294911201, 4294911227, 4294911253, 4294911279, 4294911305, 4294911331, 4294911358, 4294911384, 4294911410, 4294911436, 4294911463, 4294911489,
    4294911515, 4294911542, 4294911568, 4294911595, 4294911621, 4294911648, 4294911674, 4294911701, 4294911727, 4294911754, 4294911781, 4294911808,
    4294911834, 4294911861, 4294911888, 4294911915, 4294911942, 4294911969, 4294911996, 4294912023, 4294912050, 4294912077, 4294912104, 4294912131,
    4294912158, 4294912185, 4294912212, 4294912240, 4294912267, 4294912294, 4294912322, 4294912349, 4294912376, 4294912404, 4294912431, 4294912459,
    4294912486, 4294912514, 4294912541, 4294912569, 4294912597, 4294912624, 4294912652, 4294912680, 4294912708, 4294912736, 4294912763, 4294912791,
    4294912819, 4294912847, 4294912875, 4294912903, 4294912931, 4294912959, 4294912988, 4294913016, 4294913044, 4294913072, 4294913100, 4294913129,
    4294913157, 4294913185, 4294913214, 4294913242, 4294913270, 4294913299, 4294913327, 4294913356, 4294913385, 4294913413, 4294913442, 4294913470,
    4294913499, 4294913528, 4294913557, 4294913585, 4294913614, 4294913643, 4294913672, 4294913701, 4294913730, 4294913759, 4294913788, 4294913817,
    4294913846, 4294913875, 4294913904, 4294913933, 4294913962, 4294913992, 4294914021, 4294914050, 4294914080, 4294914109, 4294914138, 4294914168,
    4294914197, 4294914227, 4294914256, 4294914286, 4294914315, 4294914345, 4294914374, 4294914404, 4294914434, 4294914464, 4294914493, 4294914523,
    4294914553, 4294914583, 4294914613, 4294914643, 4294914672, 4294914702, 4294914732, 4294914762, 4294914793, 4294914823, 4294914853, 4294914883,
    4294914913, 4294914943, 4294914974, 4294915004, 4294915034, 4294915065, 4294915095, 4294915125, 4294915156, 4294915186, 4294915217, 4294915247,
    4294915278, 4294915308, 4294915339, 4294915370, 4294915400, 4294915431, 4294915462, 4294915493, 4294915523, 4294915554, 4294915585, 4294915616,
    4294915647, 4294915678, 4294915709, 4294915740, 4294915771, 4294915802, 4294915833, 4294915864, 4294915895, 4294915927, 4294915958, 4294915989,
    4294916020, 4294916052, 4294916083, 4294916114, 4294916146, 4294916177, 4294916209, 4294916240, 4294916272, 4294916303, 4294916335, 4294916367,
    4294916398, 4294916430, 4294916462, 4294916493, 4294916525, 4294916557, 4294916589, 4294916621, 4294916652, 4294916684, 4294916716, 4294916748,
    4294916780, 4294916812, 4294916844, 4294916876, 4294916909, 4294916941, 4294916973, 4294917005, 4294917037, 4294917070, 4294917102, 4294917134,
    4294917167, 4294917199, 4294917231, 4294917264, 4294917296, 4294917329, 4294917361, 4294917394, 4294917427, 4294917459, 4294917492, 4294917525,
    4294917557, 4294917590, 4294917623, 4294917656, 4294917688, 4294917721, 4294917754, 4294917787, 4294917820, 4294917853, 4294917886, 4294917919,
    4294917952, 4294917985, 4294918018, 4294918052, 4294918085, 4294918118, 4294918151, 4294918184, 4294918218, 4294918251, 4294918284, 4294918318,
    4294918351, 4294918385, 4294918418, 4294918452, 4294918485, 4294918519, 4294918552, 4294918586, 4294918620, 4294918653, 4294918687, 4294918721,
    4294918754, 4294918788, 4294918822, 4294918856, 4294918890, 4294918924, 4294918958, 4294918992, 4294919025, 4294919060, 4294919094, 4294919128,
    4294919162, 4294919196, 4294919230, 4294919264, 4294919298, 4294919333, 4294919367, 4294919401, 4294919436, 4294919470, 4294919504, 4294919539,
    4294919573, 4294919608, 4294919642, 4294919677, 4294919711, 4294919746, 4294919780, 4294919815, 4294919850, 4294919884, 4294919919, 4294919954,
    4294919989, 4294920023, 4294920058, 4294920093, 4294920128, 4294920163, 4294920198, 4294920233, 4294920268, 4294920303, 4294920338, 4294920373,
    4294920408, 4294920443, 4294920478, 4294920513, 4294920549, 4294920584, 4294920619, 4294920654, 4294920690, 4294920725, 4294920760, 4294920796,
    4294920831, 4294920867, 4294920902, 4294920938,
];


} // verus!
