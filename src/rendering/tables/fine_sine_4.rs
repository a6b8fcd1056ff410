use vstd::prelude::*;

verus! {

/// Entries 4096 to 5119 of the sine table, each stored as the bits of a 32-bit integer.
pub closed spec fn entry(i: int) -> i32 {
    ENTRIES[i] as i32
}

pub fn entry_at(i: usize) -> (r: i32)
    requires
        i < 1024,
    ensures
        r == entry(i as int),
{
    #[verifier::truncate] (ENTRIES[i] as i32)
}

const ENTRIES: [u32; 1024] = [
    4294967271, 4294967221, 4294967171, 4294967121, 4294967070, 4294967020, 4294966970, 4294966920, 4294966869, 4294966819, 4294966769, 4294966718,
    4294966668, 4294966618, 4294966568, 4294966517, 4294966467, 4294966417, 4294966367, 4294966316, 4294966266, 4294966216, 4294966166, 4294966115,
    4294966065, 4294966015, 4294965965, 4294965914, 4294965864, 4294965814, 4294965764, 4294965713, 4294965663, 4294965613, 4294965563, 4294965512,
    4294965462, 4294965412, 4294965362, 4294965311, 4294965261, 4294965211, 4294965161, 4294965110, 4294965060, 4294965010, 4294964960, 4294964909,
    4294964859, 4294964809, 4294964759, 4294964708, 4294964658, 4294964608, 4294964558, 4294964508, 4294964457, 4294964407, 4294964357, 4294964307,
    4294964257, 4294964206, 4294964156, 4294964106, 4294964056, 4294964005, 4294963955, 4294963905, 4294963855, 4294963805, 4294963755, 4294963704,
    4294963654, 4294963604, 4294963554, 4294963504, 4294963453, 4294963403, 4294963353, 4294963303, 4294963253, 4294963203, 4294963152, 4294963102,
    4294963052, 4294963002, 4294962952, 4294962902, 4294962851, 4294962801, 4294962751, 4294962701, 4294962651, 4294962601, 4294962551, 4294962500,
    4294962450, 4294962400, 4294962350, 4294962300, 4294962250, 4294962200, 4294962150, 4294962099, 4294962049, 4294961999, 4294961949, 4294961899,
    4294961849, 4294961799, 4294961749, 4294961699, 4294961649, 4294961599, 4294961548, 4294961498, 4294961448, 4294961398, 4294961348, 4294961298,
    4294961248, 4294961198, 4294961148, 4294961098, 4294961048, 4294960998, 4294960948, 4294960898, 4294960848, 4294960798, 4294960748, 4294960698,
    4294960648, 4294960598, 4294960548, 4294960498, 4294960448, 4294960398, 4294960348, 4294960298, 4294960248, 4294960198, 4294960148, 4294960098,
    4294960048, 4294959998, 4294959948, 4294959898, 4294959848, 4294959798, 4294959748, 4294959698, 4294959648, 4294959599, 4294959549, 4294959499,
    4294959449, 4294959399, 4294959349, 4294959299, 4294959249, 4294959199, 4294959149, 4294959100, 4294959050, 4294959000, 4294958950, 4294958900,
    4294958850, 4294958800, 4294958751, 4294958701, 4294958651, 4294958601, 4294958551, 4294958502, 4294958452, 4294958402, 4294958352, 4294958302,
    4294958253, 4294958203, 4294958153, 4294958103, 4294958053, 4294958004, 4294957954, 4294957904, 4294957854, 4294957805, 4294957755, 4294957705,
    4294957656, 4294957606, 4294957556, 4294957506, 4294957457, 4294957407, 4294957357, 4294957308, 4294957258, 4294957208, 4294957159, 4294957109,
    4294957059, 4294957010, 4294956960, 4294956910, 4294956861, 4294956811, 4294956762, 4294956712, 4294956662, 4294956613, 4294956563, 4294956514,
    4294956464, 4294956414, 4294956365, 4294956315, 4294956266, 4294956216, 4294956167, 4294956117, 4294956068, 4294956018, 4294955969, 4294955919,
    4294955870, 4294955820, 4294955771, 4294955721, 4294955672, 4294955622, 4294955573, 4294955523, 4294955474, 4294955424, 4294955375, 4294955326,
    4294955276, 4294955227, 4294955177, 4294955128, 4294955078, 4294955029, 4294954980, 4294954930, 4294954881, 4294954832, 4294954782, 4294954733,
    4294954684, 4294954634, 4294954585, 4294954536, 4294954486, 4294954437, 4294954388, 4294954339, 4294954289, 4294954240, 4294954191, 4294954142,
    4294954092, 4294954043, 4294953994, 4294953945, 4294953895, 4294953846, 4294953797, 4294953748, 4294953699, 4294953649, 4294953600, 4294953551,
    4294953502, 4294953453, 4294953404, 4294953355, 4294953306, 4294953256, 4294953207, 4294953158, 4294953109, 4294953060, 4294953011, 4294952962,
    4294952913, 4294952864, 4294952815, 4294952766, 4294952717, 4294952668, 4294952619, 4294952570, 4294952521, 4294952472, 4294952423, 4294952374,
    4294952325, 4294952276, 4294952227, 4294952178, 4294952129, 4294952081, 4294952032, 4294951983, 4294951934, 4294951885, 4294951836, 4294951787,
    4294951738, 4294951690, 4294951641, 4294951592, 4294951543, 4294951494, 4294951446, 4294951397, 4294951348, 4294951299, 4294951251, 4294951202,
    4294951153, 4294951105, 4294951056, 4294951007, 4294950958, 4294950910, 4294950861, 4294950812, 4294950764, 4294950715, 4294950667, 4294950618,
    4294950569, 4294950521, 4294950472, 4294950424, 4294950375, 4294950326, 4294950278, 4294950229, 4294950181, 4294950132, 4294950084, 4294950035,
    4294949987, 4294949938, 4294949890, 4294949841, 4294949793, 4294949745, 4294949696, 4294949648, 4294949599, 4294949551, 4294949503, 4294949454,
    4294949406, 4294949357, 4294949309, 4294949261, 4294949212, 4294949164, 4294949116, 4294949068, 4294949019, 4294948971, 4294948923, 4294948875,
    4294948826, 4294948778, 4294948730, 4294948682, 4294948633, 4294948585, 4294948537, 4294948489, 4294948441, 4294948393, 4294948345, 4294948296,
    4294948248, 4294948200, 4294948152, 4294948104, 4294948056, 4294948008, 4294947960, 4294947912, 4294947864, 4294947816, 4294947768, 4294947720,
    4294947672, 4294947624, 4294947576, 4294947528, 4294947480, 4294947432, 4294947384, 4294947337, 4294947289, 4294947241, 4294947193, 4294947145,
    4294947097, 4294947050, 4294947002, 4294946954, 4294946906, 4294946858, 4294946811, 4294946763, 4294946715, 4294946667, 4294946620, 4294946572,
    4294946524, 4294946477, 4294946429, 4294946381, 4294946334, 4294946286, 4294946239, 4294946191, 4294946143, 4294946096, 4294946048, 4294946001,
    4294945953, 4294945906, 4294945858, 4294945811, 4294945763, 4294945716, 4294945668, 4294945621, 4294945573, 4294945526, 4294945479, 4294945431,
    4294945384, 4294945336, 4294945289, 4294945242, 4294945194, 4294945147, 4294945100, 4294945053, 4294945005, 4294944958, 4294944911, 4294944863,
    4294944816, 4294944769, 4294944722, 4294944675, 4294944628, 4294944580, 4294944533, 4294944486, 4294944439, 4294944392, 4294944345, 4294944298,
    4294944251, 4294944204, 4294944157, 4294944110, 4294944063, 4294944016, 4294943969, 4294943922, 4294943875, 4294943828, 4294943781, 4294943734,
    4294943687, 4294943640, 4294943593, 4294943546, 4294943500, 4294943453, 4294943406, 4294943359, 4294943312, 4294943266, 4294943219, 4294943172,
    4294943125, 4294943079, 4294943032, 4294942985, 4294942939, 4294942892, 4294942845, 4294942799, 4294942752, 4294942705, 4294942659, 4294942612,
    4294942566, 4294942519, 4294942473, 4294942426, 4294942380, 4294942333, 4294942287, 4294942240, 4294942194, 4294942147, 4294942101, 4294942055,
    4294942008, 4294941962, 4294941915, 4294941869, 4294941823, 4294941776, 4294941730, 4294941684, 4294941638, 4294941591, 4294941545, 4294941499,
    4294941453, 4294941407, 4294941360, 4294941314, 4294941268, 4294941222, 4294941176, 4294941130, 4294941084, 4294941038, 4294940992, 4294940946,
    4294940900, 4294940854, 4294940808, 4294940762, 4294940716, 4294940670, 4294940624, 4294940578, 4294940532, 4294940486, 4294940440, 4294940394,
    4294940349, 4294940303, 4294940257, 4294940211, 4294940165, 4294940120, 4294940074, 4294940028, 4294939983, 4294939937, 4294939891, 4294939846,
    4294939800, 4294939754, 4294939709, 4294939663, 4294939618, 4294939572, 4294939526, 4294939481, 4294939435, 4294939390, 4294939344, 4294939299,
    4294939254, 4294939208, 4294939163, 4294939117, 4294939072, 4294939027, 4294938981, 4294938936, 4294938891, 4294938845, 4294938800, 4294938755,
    4294938710, 4294938664, 4294938619, 4294938574, 4294938529, 4294938484, 4294938438, 4294938393, 4294938348, 4294938303, 4294938258, 4294938213,
    4294938168, 4294938123, 4294938078, 4294938033, 4294937988, 4294937943, 4294937898, 4294937853, 4294937808, 4294937763, 4294937719, 4294937674,
    4294937629, 4294937584, 4294937539, 4294937495, 4294937450, 4294937405, 4294937360, 4294937316, 4294937271, 4294937226, 4294937182, 4294937137,
    4294937092, 4294937048, 4294937003, 4294936959, 4294936914, 4294936869, 4294936825, 4294936780, 4294936736, 4294936692, 4294936647, 4294936603,
    4294936558, 4294936514, 4294936470, 4294936425, 4294936381, 4294936337, 4294936292, 4294936248, 4294936204, 4294936159, 4294936115, 4294936071,
    4294936027, 4294935983, 4294935939, 4294935894, 4294935850, 4294935806, 4294935762, 4294935718, 4294935674, 4294935630, 4294935586, 4294935542,
    4294935498, 4294935454, 4294935410, 4294935366, 4294935322, 4294935279, 4294935235, 4294935191, 4294935147, 4294935103, 4294935060, 4294935016,
    4294934972, 4294934928, 4294934885, 4294934841, 4294934797, 4294934754, 4294934710, 4294934666, 4294934623, 4294934579, 4294934536, 4294934492,
    4294934449, 4294934405, 4294934362, 4294934318, 4294934275, 4294934231, 4294934188, 4294934145, 4294934101, 4294934058, 4294934015, 4294933971,
    4294933928, 4294933885, 4294933842, 4294933798, 4294933755, 4294933712, 4294933669, 4294933626, 4294933583, 4294933540, 4294933497, 4294933453,
    4294933410, 4294933367, 4294933324, 4294933281, 4294933239, 4294933196, 4294933153, 4294933110, 4294933067, 4294933024, 4294932981, 4294932938,
    4294932896, 4294932853, 4294932810, 4294932767, 4294932725, 4294932682, 4294932639, 4294932597, 4294932554, 4294932511, 4294932469, 4294932426,
    4294932384, 4294932341, 4294932299, 4294932256, 4294932214, 4294932171, 4294932129, 4294932086, 4294932044, 4294932002, 4294931959, 4294931917,
    4294931875, 4294931832, 4294931790, 4294931748, 4294931706, 4294931663, 4294931621, 4294931579, 4294931537, 4294931495, 4294931453, 4294931411,
    4294931369, 4294931327, 4294931285, 4294931243, 4294931201, 4294931159, 4294931117, 4294931075, 4294931033, 4294930991, 4294930949, 4294930908,
    4294930866, 4294930824, 4294930782, 4294930740, 4294930699, 4294930657, 4294930615, 4294930574, 4294930532, 4294930491, 4294930449, 4294930407,
    4294930366, 4294930324, 4294930283, 4294930241, 4294930200, 4294930159, 4294930117, 4294930076, 4294930034, 4294929993, 4294929952, 4294929910,
    4294929869, 4294929828, 4294929787, 4294929745, 4294929704, 4294929663, 4294929622, 4294929581, 4294929540, 4294929499, 4294929458, 4294929417,
    4294929376, 4294929335, 4294929294, 4294929253, 4294929212, 4294929171, 4294929130, 4294929089, 4294929048, 4294929008, 4294928967, 4294928926,
    4294928885, 4294928845, 4294928804, 4294928763, 4294928723, 4294928682, 4294928641, 4294928601, 4294928560, 4294928520, 4294928479, 4294928439,
    4294928398, 4294928358, 4294928317, 4294928277, 4294928237, 4294928196, 4294928156, 4294928116, 4294928075, 4294928035, 4294927995, 4294927955,
    4294927914, 4294927874, 4294927834, 4294927794, 4294927754, 4294927714, 4294927674, 4294927634, 4294927594, 4294927554, 4294927514, 4294927474,
    4294927434, 4294927394, 4294927354, 4294927314, 4294927275, 4294927235, 4294927195, 4294927155, 4294927116, 4294927076, 4294927036, 4294926996,
    4294926957, 4294926917, 4294926878, 4294926838, 4294926799, 4294926759, 4294926720, 4294926680, 4294926641, 4294926601, 4294926562, 4294926523,
    4294926483, 4294926444, 4294926405, 4294926365, 4294926326, 4294926287, 4294926248, 4294926208, 4294926169, 4294926130, 4294926091, 4294926052,
    4294926013, 4294925974, 4294925935, 4294925896, 4294925857, 4294925818, 4294925779, 4294925740, 4294925701, 4294925663, 4294925624, 4294925585,
    4294925546, 4294925508, 4294925469, 4294925430, 4294925392, 4294925353, 4294925314, 4294925276, 4294925237, 4294925199, 4294925160, 4294925122,
    4294925083, 4294925045, 4294925006, 4294924968, 4294924930, 4294924891, 4294924853, 4294924815, 4294924776, 4294924738, 4294924700, 4294924662,
    4294924624, 4294924585, 4294924547, 4294924509, 4294924471, 4294924433, 4294924395, 4294924357, 4294924319, 4294924281, 4294924243, 4294924205,
    4294924168, 4294924130, 4294924092, 4294924054, 4294924016, 4294923979, 4294923941, 4294923903, 4294923866, 4294923828, 4294923790, 4294923753,
    4294923715, 4294923678, 4294923640, 4294923603, 4294923565, 4294923528, 4294923490, 4294923453, 4294923416, 4294923378, 4294923341, 4294923304,
    4294923267, 4294923229, 4294923192, 4294923155, 4294923118, 4294923081, 4294923044, 4294923007, 4294922970, 4294922933, 4294922896, 4294922859,
    4294922822, 4294922785, 4294922748, 4294922711, 4294922674, 4294922637, 4294922601, 4294922564, 4294922527, 4294922490, 4294922454, 4294922417,
    4294922381, 4294922344, 4294922307, 4294922271, 4294922234, 4294922198, 4294922161, 4294922125, 4294922089, 4294922052, 4294922016, 4294921980,
    4294921943, 4294921907, 4294921871, 4294921834, 4294921798, 4294921762, 4294921726, 4294921690, 4294921654, 4294921618, 4294921582, 4294921546,
    4294921510, 4294921474, 4294921438, 4294921402, 4294921366, 4294921330, 4294921294, 4294921259, 4294921223, 4294921187, 4294921151, 4294921116,
    4294921080, 4294921044, 4294921009, 4294920973,
];


} // verus!
