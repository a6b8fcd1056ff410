use vstd::prelude::*;

verus! {

/// Entries 1024 to 2047 of the tangent table, each stored as the bits of a 32-bit integer.
pub closed spec fn entry(i: int) -> i32 {
    ENTRIES[i] as i32
}

pub fn entry_at(i: usize) -> (r: i32)
    requires
        i < 1024,
    ensures
        r == entry(i as int),
{
    #[verifier::truncate] (ENTRIES[i] as i32)
}

const ENTRIES: [u32; 1024] = [
    4294901811, 4294901911, 4294902011, 4294902111, 4294902211, 4294902311, 4294902411, 4294902510, 4294902609, 4294902709, 4294902808, 4294902907,
    4294903005, 4294903104, 4294903202, 4294903300, 4294903399, 4294903497, 4294903594, 4294903692, 4294903790, 4294903887, 4294903984, 4294904081,
    4294904178, 4294904275, 4294904372, 4294904468, 4294904565, 4294904661, 4294904757, 4294904853, 4294904949, 4294905045, 4294905140, 4294905236,
    4294905331, 4294905426, 4294905521, 4294905616, 4294905711, 4294905805, 4294905900, 4294905994, 4294906088, 4294906182, 4294906276, 4294906370,
    4294906463, 4294906557, 4294906650, 4294906744, 4294906837, 4294906930, 4294907023, 4294907115, 4294907208, 4294907300, 4294907393, 4294907485,
    4294907577, 4294907669, 4294907761, 4294907852, 4294907944, 4294908035, 4294908127, 4294908218, 4294908309, 4294908400, 4294908491, 4294908581,
    4294908672, 4294908762, 4294908853, 4294908943, 4294909033, 4294909123, 4294909213, 4294909302, 4294909392, 4294909481, 4294909571, 4294909660,
    4294909749, 4294909838, 4294909927, 4294910015, 4294910104, 4294910192, 4294910281, 4294910369, 4294910457, 4294910545, 4294910633, 4294910721,
    4294910809, 4294910896, 4294910984, 4294911071, 4294911158, 4294911245, 4294911332, 4294911419, 4294911506, 4294911592, 4294911679, 4294911765,
    4294911852, 4294911938, 4294912024, 4294912110, 4294912196, 4294912281, 4294912367, 4294912453, 4294912538, 4294912623, 4294912709, 4294912794,
    4294912879, 4294912963, 4294913048, 4294913133, 4294913217, 4294913302, 4294913386, 4294913470, 4294913555, 4294913639, 4294913722, 4294913806,
    4294913890, 4294913974, 4294914057, 4294914140, 4294914224, 4294914307, 4294914390, 4294914473, 4294914556, 4294914639, 4294914721, 4294914804,
    4294914886, 4294914969, 4294915051, 4294915133, 4294915215, 4294915297, 4294915379, 4294915461, 4294915542, 4294915624, 4294915705, 4294915787,
    4294915868, 4294915949, 4294916030, 4294916111, 4294916192, 4294916273, 4294916354, 4294916434, 4294916515, 4294916595, 4294916675, 4294916756,
    4294916836, 4294916916, 4294916996, 4294917075, 4294917155, 4294917235, 4294917314, 4294917394, 4294917473, 4294917552, 4294917632, 4294917711,
    4294917790, 4294917869, 4294917947, 4294918026, 4294918105, 4294918183, 4294918262, 4294918340, 4294918418, 4294918497, 4294918575, 4294918653,
    4294918731, 4294918808, 4294918886, 4294918964, 4294919041, 4294919119, 4294919196, 4294919274, 4294919351, 4294919428, 4294919505, 4294919582,
    4294919659, 4294919736, 4294919812, 4294919889, 4294919965, 4294920042, 4294920118, 4294920194, 4294920271, 4294920347, 4294920423, 4294920499,
    4294920575, 4294920650, 4294920726, 4294920802, 4294920877, 4294920953, 4294921028, 4294921103, 4294921178, 4294921254, 4294921329, 4294921404,
    4294921478, 4294921553, 4294921628, 4294921703, 4294921777, 4294921852, 4294921926, 4294922000, 4294922075, 4294922149, 4294922223, 4294922297,
    4294922371, 4294922445, 4294922518, 4294922592, 4294922666, 4294922739, 4294922813, 4294922886, 4294922959, 4294923033, 4294923106, 4294923179,
    4294923252, 4294923325, 4294923398, 4294923470, 4294923543, 4294923616, 4294923688, 4294923761, 4294923833, 4294923906, 4294923978, 4294924050,
    4294924122, 4294924194, 4294924266, 4294924338, 4294924410, 4294924482, 4294924553, 4294924625, 4294924696, 4294924768, 4294924839, 4294924911,
    4294924982, 4294925053, 4294925124, 4294925195, 4294925266, 4294925337, 4294925408, 4294925479, 4294925549, 4294925620, 4294925691, 4294925761,
    4294925831, 4294925902, 4294925972, 4294926042, 4294926112, 4294926183, 4294926253, 4294926323, 4294926392, 4294926462, 4294926532, 4294926602,
    4294926671, 4294926741, 4294926810, 4294926880, 4294926949, 4294927018, 4294927088, 4294927157, 4294927226, 4294927295, 4294927364, 4294927433,
    4294927502, 4294927570, 4294927639, 4294927708, 4294927776, 4294927845, 4294927913, 4294927982, 4294928050, 4294928118, 4294928186, 4294928254,
    4294928323, 4294928391, 4294928459, 4294928526, 4294928594, 4294928662, 4294928730, 4294928797, 4294928865, 4294928932, 4294929000, 4294929067,
    4294929135, 4294929202, 4294929269, 4294929336, 4294929403, 4294929470, 4294929537, 4294929604, 4294929671, 4294929738, 4294929805, 4294929871,
    4294929938, 4294930005, 4294930071, 4294930138, 4294930204, 4294930270, 4294930337, 4294930403, 4294930469, 4294930535, 4294930601, 4294930667,
    4294930733, 4294930799, 4294930865, 4294930931, 4294930996, 4294931062, 4294931128, 4294931193, 4294931259, 4294931324, 4294931389, 4294931455,
    4294931520, 4294931585, 4294931650, 4294931716, 4294931781, 4294931846, 4294931911, 4294931975, 4294932040, 4294932105, 4294932170, 4294932234,
    4294932299, 4294932364, 4294932428, 4294932493, 4294932557, 4294932621, 4294932686, 4294932750, 4294932814, 4294932878, 4294932942, 4294933007,
    4294933071, 4294933134, 4294933198, 4294933262, 4294933326, 4294933390, 4294933453, 4294933517, 4294933581, 4294933644, 4294933708, 4294933771,
    4294933835, 4294933898, 4294933961, 4294934024, 4294934088, 4294934151, 4294934214, 4294934277, 4294934340, 4294934403, 4294934466, 4294934529,
    4294934591, 4294934654, 4294934717, 4294934780, 4294934842, 4294934905, 4294934967, 4294935030, 4294935092, 4294935155, 4294935217, 4294935279,
    4294935341, 4294935404, 4294935466, 4294935528, 4294935590, 4294935652, 4294935714, 4294935776, 4294935838, 4294935900, 4294935961, 4294936023,
    4294936085, 4294936146, 4294936208, 4294936270, 4294936331, 4294936392, 4294936454, 4294936515, 4294936577, 4294936638, 4294936699, 4294936760,
    4294936822, 4294936883, 4294936944, 4294937005, 4294937066, 4294937127, 4294937188, 4294937248, 4294937309, 4294937370, 4294937431, 4294937491,
    4294937552, 4294937613, 4294937673, 4294937734, 4294937794, 4294937855, 4294937915, 4294937975, 4294938036, 4294938096, 4294938156, 4294938216,
    4294938276, 4294938337, 4294938397, 4294938457, 4294938517, 4294938577, 4294938636, 4294938696, 4294938756, 4294938816, 4294938876, 4294938935,
    4294938995, 4294939055, 4294939114, 4294939174, 4294939233, 4294939293, 4294939352, 4294939412, 4294939471, 4294939530, 4294939589, 4294939649,
    4294939708, 4294939767, 4294939826, 4294939885, 4294939944, 4294940003, 4294940062, 4294940121, 4294940180, 4294940239, 4294940298, 4294940356,
    4294940415, 4294940474, 4294940533, 4294940591, 4294940650, 4294940708, 4294940767, 4294940825, 4294940884, 4294940942, 4294941001, 4294941059,
    4294941117, 4294941176, 4294941234, 4294941292, 4294941350, 4294941408, 4294941466, 4294941524, 4294941582, 4294941640, 4294941698, 4294941756,
    4294941814, 4294941872, 4294941930, 4294941988, 4294942045, 4294942103, 4294942161, 4294942218, 4294942276, 4294942334, 4294942391, 4294942449,
    4294942506, 4294942564, 4294942621, 4294942678, 4294942736, 4294942793, 4294942850, 4294942907, 4294942965, 4294943022, 4294943079, 4294943136,
    4294943193, 4294943250, 4294943307, 4294943364, 4294943421, 4294943478, 4294943535, 4294943592, 4294943649, 4294943705, 4294943762, 4294943819,
    4294943876, 4294943932, 4294943989, 4294944046, 4294944102, 4294944159, 4294944215, 4294944272, 4294944328, 4294944385, 4294944441, 4294944497,
    4294944554, 4294944610, 4294944666, 4294944723, 4294944779, 4294944835, 4294944891, 4294944947, 4294945003, 4294945059, 4294945115, 4294945171,
    4294945227, 4294945283, 4294945339, 4294945395, 4294945451, 4294945507, 4294945563, 4294945618, 4294945674, 4294945730, 4294945786, 4294945841,
    4294945897, 4294945953, 4294946008, 4294946064, 4294946119, 4294946175, 4294946230, 4294946286, 4294946341, 4294946396, 4294946452, 4294946507,
    4294946562, 4294946618, 4294946673, 4294946728, 4294946783, 4294946839, 4294946894, 4294946949, 4294947004, 4294947059, 4294947114, 4294947169,
    4294947224, 4294947279, 4294947334, 4294947389, 4294947444, 4294947499, 4294947554, 4294947608, 4294947663, 4294947718, 4294947773, 4294947827,
    4294947882, 4294947937, 4294947991, 4294948046, 4294948101, 4294948155, 4294948210, 4294948264, 4294948319, 4294948373, 4294948428, 4294948482,
    4294948536, 4294948591, 4294948645, 4294948699, 4294948754, 4294948808, 4294948862, 4294948916, 4294948971, 4294949025, 4294949079, 4294949133,
    4294949187, 4294949241, 4294949295, 4294949350, 4294949404, 4294949458, 4294949512, 4294949565, 4294949619, 4294949673, 4294949727, 4294949781,
    4294949835, 4294949889, 4294949943, 4294949996, 4294950050, 4294950104, 4294950158, 4294950211, 4294950265, 4294950319, 4294950372, 4294950426,
    4294950479, 4294950533, 4294950586, 4294950640, 4294950693, 4294950747, 4294950800, 4294950854, 4294950907, 4294950961, 4294951014, 4294951067,
    4294951121, 4294951174, 4294951227, 4294951281, 4294951334, 4294951387, 4294951440, 4294951494, 4294951547, 4294951600, 4294951653, 4294951706,
    4294951759, 4294951812, 4294951865, 4294951918, 4294951971, 4294952024, 4294952077, 4294952130, 4294952183, 4294952236, 4294952289, 4294952342,
    4294952395, 4294952448, 4294952501, 4294952553, 4294952606, 4294952659, 4294952712, 4294952765, 4294952817, 4294952870, 4294952923, 4294952975,
    4294953028, 4294953081, 4294953133, 4294953186, 4294953239, 4294953291, 4294953344, 4294953396, 4294953449, 4294953501, 4294953554, 4294953606,
    4294953659, 4294953711, 4294953763, 4294953816, 4294953868, 4294953921, 4294953973, 4294954025, 4294954078, 4294954130, 4294954182, 4294954234,
    4294954287, 4294954339, 4294954391, 4294954443, 4294954496, 4294954548, 4294954600, 4294954652, 4294954704, 4294954756, 4294954808, 4294954860,
    4294954913, 4294954965, 4294955017, 4294955069, 4294955121, 4294955173, 4294955225, 4294955277, 4294955329, 4294955380, 4294955432, 4294955484,
    4294955536, 4294955588, 4294955640, 4294955692, 4294955744, 4294955795, 4294955847, 4294955899, 4294955951, 4294956003, 4294956054, 4294956106,
    4294956158, 4294956210, 4294956261, 4294956313, 4294956365, 4294956416, 4294956468, 4294956519, 4294956571, 4294956623, 4294956674, 4294956726,
    4294956777, 4294956829, 4294956881, 4294956932, 4294956984, 4294957035, 4294957087, 4294957138, 4294957190, 4294957241, 4294957292, 4294957344,
    4294957395, 4294957447, 4294957498, 4294957549, 4294957601, 4294957652, 4294957704, 4294957755, 4294957806, 4294957858, 4294957909, 4294957960,
    4294958011, 4294958063, 4294958114, 4294958165, 4294958216, 4294958268, 4294958319, 4294958370, 4294958421, 4294958472, 4294958524, 4294958575,
    4294958626, 4294958677, 4294958728, 4294958779, 4294958830, 4294958882, 4294958933, 4294958984, 4294959035, 4294959086, 4294959137, 4294959188,
    4294959239, 4294959290, 4294959341, 4294959392, 4294959443, 4294959494, 4294959545, 4294959596, 4294959647, 4294959698, 4294959749, 4294959800,
    4294959851, 4294959901, 4294959952, 4294960003, 4294960054, 4294960105, 4294960156, 4294960207, 4294960258, 4294960308, 4294960359, 4294960410,
    4294960461, 4294960512, 4294960563, 4294960613, 4294960664, 4294960715, 4294960766, 4294960816, 4294960867, 4294960918, 4294960969, 4294961019,
    4294961070, 4294961121, 4294961172, 4294961222, 4294961273, 4294961324, 4294961374, 4294961425, 4294961476, 4294961526, 4294961577, 4294961628,
    4294961678, 4294961729, 4294961779, 4294961830, 4294961881, 4294961931, 4294961982, 4294962032, 4294962083, 4294962134, 4294962184, 4294962235,
    4294962285, 4294962336, 4294962386, 4294962437, 4294962488, 4294962538, 4294962589, 4294962639, 4294962690, 4294962740, 4294962791, 4294962841,
    4294962892, 4294962942, 4294962993, 4294963043, 4294963094, 4294963144, 4294963195, 4294963245, 4294963295, 4294963346, 4294963396, 4294963447,
    4294963497, 4294963548, 4294963598, 4294963648, 4294963699, 4294963749, 4294963800, 4294963850, 4294963901, 4294963951, 4294964001, 4294964052,
    4294964102, 4294964152, 4294964203, 4294964253, 4294964304, 4294964354, 4294964404, 4294964455, 4294964505, 4294964555, 4294964606, 4294964656,
    4294964706, 4294964757, 4294964807, 4294964857, 4294964908, 4294964958, 4294965008, 4294965059, 4294965109, 4294965159, 4294965210, 4294965260,
    4294965310, 4294965361, 4294965411, 4294965461, 4294965512, 4294965562, 4294965612, 4294965663, 4294965713, 4294965763, 4294965813, 4294965864,
    4294965914, 4294965964, 4294966015, 4294966065, 4294966115, 4294966165, 4294966216, 4294966266, 4294966316, 4294966367, 4294966417, 4294966467,
    4294966517, 4294966568, 4294966618, 4294966668, 4294966718, 4294966769, 4294966819, 4294966869, 4294966920, 4294966970, 4294967020, 4294967070,
    4294967121, 4294967171, 4294967221, 4294967271,
];


} // verus!
