use vstd::prelude::*;

verus! {

/// Entries 3072 to 4095 of the tangent table, each stored as the bits of a 32-bit integer.
pub closed spec fn entry(i: int) -> i32 {
    ENTRIES[i] as i32
}

pub fn entry_at(i: usize) -> (r: i32)
    requires
        i < 1024,
    ensures
        r == entry(i as int),
{
    #[verifier::truncate] (ENTRIES[i] as i32)
}

const ENTRIES: [u32; 1024] = [
    65586, 65686, 65787, 65888, 65989, 66091, 66192, 66294, 66396, 66498, 66600, 66702,
    66804, 66907, 67010, 67113, 67216, 67319, 67422, 67526, 67629, 67733, 67837, 67942,
    68046, 68151, 68255, 68360, 68465, 68570, 68676, 68781, 68887, 68993, 69099, 69205,
    69312, 69418, 69525, 69632, 69739, 69846, 69954, 70061, 70169, 70277, 70385, 70494,
    70602, 70711, 70820, 70929, 71038, 71147, 71257, 71367, 71477, 71587, 71697, 71808,
    71918, 72029, 72140, 72252, 72363, 72475, 72587, 72699, 72811, 72923, 73036, 73149,
    73262, 73375, 73488, 73602, 73715, 73829, 73944, 74058, 74172, 74287, 74402, 74517,
    74633, 74748, 74864, 74980, 75096, 75213, 75329, 75446, 75563, 75680, 75797, 75915,
    76033, 76151, 76269, 76388, 76506, 76625, 76744, 76864, 76983, 77103, 77223, 77343,
    77463, 77584, 77705, 77826, 77947, 78068, 78190, 78312, 78434, 78557, 78679, 78802,
    78925, 79048, 79172, 79296, 79420, 79544, 79668, 79793, 79918, 80043, 80168, 80294,
    80420, 80546, 80672, 80799, 80925, 81053, 81180, 81307, 81435, 81563, 81691, 81820,
    81949, 82078, 82207, 82336, 82466, 82596, 82726, 82857, 82987, 83118, 83250, 83381,
    83513, 83645, 83777, 83910, 84043, 84176, 84309, 84443, 84576, 84710, 84845, 84980,
    85114, 85250, 85385, 85521, 85657, 85793, 85930, 86066, 86204, 86341, 86479, 86617,
    86755, 86893, 87032, 87171, 87310, 87450, 87590, 87730, 87871, 88011, 88152, 88294,
    88435, 88577, 88720, 88862, 89005, 89148, 89292, 89435, 89579, 89724, 89868, 90013,
    90158, 90304, 90450, 90596, 90742, 90889, 91036, 91184, 91332, 91480, 91628, 91777,
    91926, 92075, 92225, 92375, 92525, 92675, 92826, 92978, 93129, 93281, 93434, 93586,
    93739, 93892, 94046, 94200, 94354, 94509, 94664, 94819, 94975, 95131, 95287, 95444,
    95601, 95758, 95916, 96074, 96233, 96391, 96551, 96710, 96870, 97030, 97191, 97352,
    97513, 97675, 97837, 98000, 98163, 98326, 98489, 98653, 98818, 98982, 99148, 99313,
    99479, 99645, 99812, 99979, 100146, 100314, 100482, 100651, 100820, 100990, 101159, 101330,
    101500, 101671, 101843, 102015, 102187, 102360, 102533, 102706, 102880, 103054, 103229, 103404,
    103580, 103756, 103933, 104109, 104287, 104465, 104643, 104821, 105000, 105180, 105360, 105540,
    105721, 105902, 106084, 106266, 106449, 106632, 106816, 107000, 107184, 107369, 107555, 107741,
    107927, 108114, 108301, 108489, 108677, 108866, 109055, 109245, 109435, 109626, 109817, 110008,
    110201, 110393, 110586, 110780, 110974, 111169, 111364, 111560, 111756, 111952, 112150, 112347,
    112546, 112744, 112944, 113143, 113344, 113545, 113746, 113948, 114151, 114354, 114557, 114761,
    114966, 115171, 115377, 115583, 115790, 115998, 116206, 116414, 116623, 116833, 117044, 117254,
    117466, 117678, 117891, 118104, 118318, 118532, 118747, 118963, 119179, 119396, 119613, 119831,
    120050, 120269, 120489, 120709, 120930, 121152, 121374, 121597, 121821, 122045, 122270, 122496,
    122722, 122949, 123176, 123404, 123633, 123863, 124093, 124324, 124555, 124787, 125020, 125254,
    125488, 125723, 125959, 126195, 126432, 126669, 126908, 127147, 127387, 127627, 127869, 128111,
    128353, 128597, 128841, 129086, 129332, 129578, 129825, 130073, 130322, 130571, 130821, 131072,
    131324, 131576, 131830, 132084, 132339, 132594, 132851, 133108, 133366, 133625, 133884, 134145,
    134406, 134668, 134931, 135195, 135459, 135725, 135991, 136258, 136526, 136795, 137065, 137335,
    137607, 137879, 138152, 138426, 138701, 138977, 139254, 139532, 139810, 140090, 140370, 140651,
    140934, 141217, 141501, 141786, 142072, 142359, 142647, 142936, 143226, 143517, 143808, 144101,
    144395, 144690, 144986, 145282, 145580, 145879, 146179, 146480, 146782, 147084, 147388, 147693,
    148000, 148307, 148615, 148924, 149235, 149546, 149859, 150172, 150487, 150803, 151120, 151438,
    151757, 152078, 152399, 152722, 153046, 153370, 153697, 154024, 154352, 154682, 155013, 155345,
    155678, 156013, 156349, 156686, 157024, 157363, 157704, 158046, 158389, 158734, 159079, 159427,
    159775, 160125, 160476, 160828, 161182, 161537, 161893, 162251, 162610, 162970, 163332, 163695,
    164060, 164426, 164793, 165162, 165532, 165904, 166277, 166651, 167027, 167405, 167784, 168164,
    168546, 168930, 169315, 169701, 170089, 170479, 170870, 171263, 171657, 172053, 172451, 172850,
    173251, 173653, 174057, 174463, 174870, 175279, 175690, 176102, 176516, 176932, 177349, 177769,
    178190, 178612, 179037, 179463, 179891, 180321, 180753, 181186, 181622, 182059, 182498, 182939,
    183382, 183827, 184274, 184722, 185173, 185625, 186080, 186536, 186995, 187455, 187918, 188382,
    188849, 189318, 189789, 190261, 190736, 191214, 191693, 192174, 192658, 193143, 193631, 194122,
    194614, 195109, 195606, 196105, 196606, 197110, 197616, 198125, 198636, 199149, 199664, 200182,
    200703, 201226, 201751, 202279, 202809, 203342, 203878, 204416, 204956, 205500, 206045, 206594,
    207145, 207699, 208255, 208815, 209376, 209941, 210509, 211079, 211652, 212228, 212807, 213389,
    213973, 214561, 215151, 215745, 216341, 216941, 217544, 218149, 218758, 219370, 219985, 220603,
    221225, 221849, 222477, 223108, 223743, 224381, 225022, 225666, 226314, 226966, 227621, 228279,
    228941, 229606, 230276, 230948, 231624, 232304, 232988, 233676, 234367, 235062, 235761, 236463,
    237170, 237881, 238595, 239314, 240036, 240763, 241493, 242228, 242967, 243711, 244458, 245210,
    245966, 246727, 247492, 248261, 249035, 249813, 250596, 251384, 252176, 252973, 253774, 254581,
    255392, 256208, 257029, 257855, 258686, 259522, 260363, 261209, 262060, 262917, 263779, 264646,
    265519, 266397, 267280, 268170, 269064, 269965, 270871, 271783, 272700, 273624, 274553, 275489,
    276430, 277378, 278332, 279292, 280258, 281231, 282210, 283195, 284188, 285186, 286192, 287204,
    288223, 289249, 290282, 291322, 292369, 293423, 294485, 295554, 296630, 297714, 298805, 299904,
    301011, 302126, 303248, 304379, 305517, 306664, 307819, 308983, 310154, 311335, 312524, 313721,
    314928, 316143, 317368, 318602, 319845, 321097, 322358, 323630, 324911, 326201, 327502, 328812,
    330133, 331464, 332805, 334157, 335519, 336893, 338277, 339671, 341078, 342495, 343924, 345364,
    346816, 348280, 349756, 351244, 352744, 354257, 355783, 357321, 358872, 360436, 362013, 363604,
    365208, 366826, 368459, 370105, 371765, 373440, 375130, 376835, 378555, 380290, 382040, 383807,
    385589, 387387, 389202, 391034, 392882, 394747, 396630, 398530, 400448, 402384, 404339, 406312,
    408303, 410314, 412345, 414395, 416465, 418555, 420666, 422798, 424951, 427125, 429322, 431540,
    433781, 436045, 438332, 440643, 442978, 445337, 447720, 450129, 452564, 455024, 457511, 460024,
    462565, 465133, 467730, 470355, 473009, 475692, 478406, 481150, 483925, 486732, 489571, 492443,
    495348, 498287, 501261, 504269, 507313, 510394, 513512, 516667, 519861, 523094, 526366, 529680,
    533034, 536431, 539870, 543354, 546882, 550455, 554075, 557742, 561457, 565221, 569036, 572901,
    576819, 580790, 584815, 588896, 593034, 597229, 601484, 605798, 610175, 614614, 619117, 623686,
    628323, 633028, 637803, 642651, 647572, 652568, 657640, 662792, 668024, 673338, 678737, 684223,
    689797, 695462, 701219, 707072, 713023, 719074, 725227, 731486, 737853, 744331, 750922, 757631,
    764460, 771411, 778490, 785699, 793041, 800521, 808143, 815910, 823827, 831898, 840128, 848521,
    857083, 865818, 874732, 883830, 893119, 902603, 912291, 922187, 932299, 942635, 953201, 964005,
    975056, 986362, 997932, 1009776, 1021903, 1034322, 1047046, 1060087, 1073455, 1087164, 1101225, 1115654,
    1130465, 1145673, 1161294, 1177345, 1193846, 1210813, 1228269, 1246234, 1264730, 1283783, 1303416, 1323658,
    1344537, 1366084, 1388330, 1411312, 1435065, 1459630, 1485049, 1511367, 1538632, 1566898, 1596220, 1626658,
    1658278, 1691149, 1725348, 1760956, 1798063, 1836765, 1877167, 1919385, 1963543, 2009778, 2058240, 2109095,
    2162525, 2218728, 2277929, 2340372, 2406332, 2476116, 2550064, 2628562, 2712043, 2800997, 2895981, 2997629,
    3106651, 3223918, 3350381, 3487165, 3635590, 3797206, 3973855, 4167737, 4381502, 4618375, 4882318, 5178251,
    5512368, 5892567, 6329090, 6835455, 7429880, 8137527, 8994149, 10052327, 11392683, 13145455, 15535599, 18988036,
    24413316, 34178904, 56965752, 170910304,
];

} // verus!
