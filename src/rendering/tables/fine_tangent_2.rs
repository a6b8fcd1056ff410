use vstd::prelude::*;

verus! {

/// Entries 2048 to 3071 of the tangent table, each stored as the bits of a 32-bit integer.
pub closed spec fn entry(i: int) -> i32 {
    ENTRIES[i] as i32
}

pub fn entry_at(i: usize) -> (r: i32)
    requires
        i < 1024,
    ensures
        r == entry(i as int),
{
    #[verifier::truncate] (ENTRIES[i] as i32)
}

const ENTRIES: [u32; 1024] = [
    25, 75, 125, 175, 226, 276, 326, 376, 427, 477, 527, 578,
    628, 678, 728, 779, 829, 879, 929, 980, 1030, 1080, 1131, 1181,
    1231, 1281, 1332, 1382, 1432, 1483, 1533, 1583, 1633, 1684, 1734, 1784,
    1835, 1885, 1935, 1986, 2036, 2086, 2137, 2187, 2237, 2288, 2338, 2388,
    2439, 2489, 2539, 2590, 2640, 2690, 2741, 2791, 2841, 2892, 2942, 2992,
    3043, 3093, 3144, 3194, 3244, 3295, 3345, 3395, 3446, 3496, 3547, 3597,
    3648, 3698, 3748, 3799, 3849, 3900, 3950, 4001, 4051, 4101, 4152, 4202,
    4253, 4303, 4354, 4404, 4455, 4505, 4556, 4606, 4657, 4707, 4758, 4808,
    4859, 4910, 4960, 5011, 5061, 5112, 5162, 5213, 5264, 5314, 5365, 5415,
    5466, 5517, 5567, 5618, 5668, 5719, 5770, 5820, 5871, 5922, 5972, 6023,
    6074, 6124, 6175, 6226, 6277, 6327, 6378, 6429, 6480, 6530, 6581, 6632,
    6683, 6733, 6784, 6835, 6886, 6937, 6988, 7038, 7089, 7140, 7191, 7242,
    7293, 7344, 7395, 7445, 7496, 7547, 7598, 7649, 7700, 7751, 7802, 7853,
    7904, 7955, 8006, 8057, 8108, 8159, 8210, 8261, 8312, 8363, 8414, 8466,
    8517, 8568, 8619, 8670, 8721, 8772, 8824, 8875, 8926, 8977, 9028, 9080,
    9131, 9182, 9233, 9285, 9336, 9387, 9438, 9490, 9541, 9592, 9644, 9695,
    9747, 9798, 9849, 9901, 9952, 10004, 10055, 10106, 10158, 10209, 10261, 10312,
    10364, 10415, 10467, 10519, 10570, 10622, 10673, 10725, 10777, 10828, 10880, 10931,
    10983, 11035, 11086, 11138, 11190, 11242, 11293, 11345, 11397, 11449, 11501, 11552,
    11604, 11656, 11708, 11760, 11812, 11864, 11916, 11967, 12019, 12071, 12123, 12175,
    12227, 12279, 12331, 12383, 12436, 12488, 12540, 12592, 12644, 12696, 12748, 12800,
    12853, 12905, 12957, 13009, 13062, 13114, 13166, 13218, 13271, 13323, 13375, 13428,
    13480, 13533, 13585, 13637, 13690, 13742, 13795, 13847, 13900, 13952, 14005, 14057,
    14110, 14163, 14215, 14268, 14321, 14373, 14426, 14479, 14531, 14584, 14637, 14690,
    14743, 14795, 14848, 14901, 14954, 15007, 15060, 15113, 15166, 15219, 15272, 15325,
    15378, 15431, 15484, 15537, 15590, 15643, 15696, 15749, 15802, 15856, 15909, 15962,
    16015, 16069, 16122, 16175, 16229, 16282, 16335, 16389, 16442, 16496, 16549, 16603,
    16656, 16710, 16763, 16817, 16870, 16924, 16977, 17031, 17085, 17138, 17192, 17246,
    17300, 17353, 17407, 17461, 17515, 17569, 17623, 17677, 17731, 17784, 17838, 17892,
    17946, 18001, 18055, 18109, 18163, 18217, 18271, 18325, 18380, 18434, 18488, 18542,
    18597, 18651, 18705, 18760, 18814, 18868, 18923, 18977, 19032, 19086, 19141, 19195,
    19250, 19305, 19359, 19414, 19469, 19523, 19578, 19633, 19688, 19742, 19797, 19852,
    19907, 19962, 20017, 20072, 20127, 20182, 20237, 20292, 20347, 20402, 20457, 20513,
    20568, 20623, 20678, 20734, 20789, 20844, 20900, 20955, 21010, 21066, 21121, 21177,
    21232, 21288, 21343, 21399, 21455, 21510, 21566, 21622, 21678, 21733, 21789, 21845,
    21901, 21957, 22013, 22069, 22125, 22181, 22237, 22293, 22349, 22405, 22461, 22517,
    22573, 22630, 22686, 22742, 22799, 22855, 22911, 22968, 23024, 23081, 23137, 23194,
    23250, 23307, 23364, 23420, 23477, 23534, 23591, 23647, 23704, 23761, 23818, 23875,
    23932, 23989, 24046, 24103, 24160, 24217, 24274, 24331, 24389, 24446, 24503, 24560,
    24618, 24675, 24732, 24790, 24847, 24905, 24962, 25020, 25078, 25135, 25193, 25251,
    25308, 25366, 25424, 25482, 25540, 25598, 25656, 25714, 25772, 25830, 25888, 25946,
    26004, 26062, 26120, 26179, 26237, 26295, 26354, 26412, 26471, 26529, 26588, 26646,
    26705, 26763, 26822, 26881, 26940, 26998, 27057, 27116, 27175, 27234, 27293, 27352,
    27411, 27470, 27529, 27588, 27647, 27707, 27766, 27825, 27884, 27944, 28003, 28063,
    28122, 28182, 28241, 28301, 28361, 28420, 28480, 28540, 28600, 28660, 28719, 28779,
    28839, 28899, 28959, 29020, 29080, 29140, 29200, 29260, 29321, 29381, 29441, 29502,
    29562, 29623, 29683, 29744, 29805, 29865, 29926, 29987, 30048, 30108, 30169, 30230,
    30291, 30352, 30413, 30474, 30536, 30597, 30658, 30719, 30781, 30842, 30904, 30965,
    31026, 31088, 31150, 31211, 31273, 31335, 31396, 31458, 31520, 31582, 31644, 31706,
    31768, 31830, 31892, 31955, 32017, 32079, 32141, 32204, 32266, 32329, 32391, 32454,
    32516, 32579, 32642, 32705, 32767, 32830, 32893, 32956, 33019, 33082, 33145, 33208,
    33272, 33335, 33398, 33461, 33525, 33588, 33652, 33715, 33779, 33843, 33906, 33970,
    34034, 34098, 34162, 34225, 34289, 34354, 34418, 34482, 34546, 34610, 34675, 34739,
    34803, 34868, 34932, 34997, 35062, 35126, 35191, 35256, 35321, 35385, 35450, 35515,
    35580, 35646, 35711, 35776, 35841, 35907, 35972, 36037, 36103, 36168, 36234, 36300,
    36365, 36431, 36497, 36563, 36629, 36695, 36761, 36827, 36893, 36959, 37026, 37092,
    37158, 37225, 37291, 37358, 37425, 37491, 37558, 37625, 37692, 37759, 37826, 37893,
    37960, 38027, 38094, 38161, 38229, 38296, 38364, 38431, 38499, 38566, 38634, 38702,
    38770, 38837, 38905, 38973, 39042, 39110, 39178, 39246, 39314, 39383, 39451, 39520,
    39588, 39657, 39726, 39794, 39863, 39932, 40001, 40070, 40139, 40208, 40278, 40347,
    40416, 40486, 40555, 40625, 40694, 40764, 40834, 40904, 40973, 41043, 41113, 41184,
    41254, 41324, 41394, 41465, 41535, 41605, 41676, 41747, 41817, 41888, 41959, 42030,
    42101, 42172, 42243, 42314, 42385, 42457, 42528, 42600, 42671, 42743, 42814, 42886,
    42958, 43030, 43102, 43174, 43246, 43318, 43390, 43463, 43535, 43608, 43680, 43753,
    43826, 43898, 43971, 44044, 44117, 44190, 44263, 44337, 44410, 44483, 44557, 44630,
    44704, 44778, 44851, 44925, 44999, 45073, 45147, 45221, 45296, 45370, 45444, 45519,
    45593, 45668, 45743, 45818, 45892, 45967, 46042, 46118, 46193, 46268, 46343, 46419,
    46494, 46570, 46646, 46721, 46797, 46873, 46949, 47025, 47102, 47178, 47254, 47331,
    47407, 47484, 47560, 47637, 47714, 47791, 47868, 47945, 48022, 48100, 48177, 48255,
    48332, 48410, 48488, 48565, 48643, 48721, 48799, 48878, 48956, 49034, 49113, 49191,
    49270, 49349, 49427, 49506, 49585, 49664, 49744, 49823, 49902, 49982, 50061, 50141,
    50221, 50300, 50380, 50460, 50540, 50621, 50701, 50781, 50862, 50942, 51023, 51104,
    51185, 51266, 51347, 51428, 51509, 51591, 51672, 51754, 51835, 51917, 51999, 52081,
    52163, 52245, 52327, 52410, 52492, 52575, 52657, 52740, 52823, 52906, 52989, 53072,
    53156, 53239, 53322, 53406, 53490, 53574, 53657, 53741, 53826, 53910, 53994, 54079,
    54163, 54248, 54333, 54417, 54502, 54587, 54673, 54758, 54843, 54929, 55015, 55100,
    55186, 55272, 55358, 55444, 55531, 55617, 55704, 55790, 55877, 55964, 56051, 56138,
    56225, 56312, 56400, 56487, 56575, 56663, 56751, 56839, 56927, 57015, 57104, 57192,
    57281, 57369, 57458, 57547, 57636, 57725, 57815, 57904, 57994, 58083, 58173, 58263,
    58353, 58443, 58534, 58624, 58715, 58805, 58896, 58987, 59078, 59169, 59261, 59352,
    59444, 59535, 59627, 59719, 59811, 59903, 59996, 60088, 60181, 60273, 60366, 60459,
    60552, 60646, 60739, 60833, 60926, 61020, 61114, 61208, 61302, 61396, 61491, 61585,
    61680, 61775, 61870, 61965, 62060, 62156, 62251, 62347, 62443, 62539, 62635, 62731,
    62828, 62924, 63021, 63118, 63215, 63312, 63409, 63506, 63604, 63702, 63799, 63897,
    63996, 64094, 64192, 64291, 64389, 64488, 64587, 64687, 64786, 64885, 64985, 65085,
    65185, 65285, 65385, 65485,
];


} // verus!
