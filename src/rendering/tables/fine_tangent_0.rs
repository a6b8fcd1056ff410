use vstd::prelude::*;

verus! {

/// Entries 0 to 1023 of the tangent table, each stored as the bits of a 32-bit integer.
pub closed spec fn entry(i: int) -> i32 {
    ENTRIES[i] as i32
}

pub fn entry_at(i: usize) -> (r: i32)
    requires
        i < 1024,
    ensures
        r == entry(i as int),
{
    #[verifier::truncate] (ENTRIES[i] as i32)
}

const ENTRIES: [u32; 1024] = [
    4124056992, 4238001544, 4260788392, 4270553980, 4275979260, 4279431697, 4281821841, 4283574613, 4284914969, 4285973147, 4286829769, 4287537416,
    4288131841, 4288638206, 4289074729, 4289454928, 4289789045, 4290084978, 4290348921, 4290585794, 4290799559, 4290993441, 4291170090, 4291331706,
    4291480131, 4291616915, 4291743378, 4291860645, 4291969667, 4292071315, 4292166299, 4292255253, 4292338734, 4292417232, 4292491180, 4292560964,
    4292626924, 4292689367, 4292748568, 4292804771, 4292858201, 4292909056, 4292957518, 4293003753, 4293047911, 4293090129, 4293130531, 4293169233,
    4293206340, 4293241948, 4293276147, 4293309018, 4293340638, 4293371076, 4293400398, 4293428664, 4293455929, 4293482247, 4293507666, 4293532231,
    4293555984, 4293578966, 4293601212, 4293622759, 4293643638, 4293663880, 4293683513, 4293702566, 4293721062, 4293739027, 4293756483, 4293773450,
    4293789951, 4293806002, 4293821623, 4293836831, 4293851642, 4293866071, 4293880132, 4293893841, 4293907209, 4293920250, 4293932974, 4293945393,
    4293957520, 4293969364, 4293980934, 4293992240, 4294003291, 4294014095, 4294024661, 4294034997, 4294045109, 4294055005, 4294064693, 4294074177,
    4294083466, 4294092564, 4294101478, 4294110213, 4294118775, 4294127168, 4294135398, 4294143469, 4294151386, 4294159153, 4294166775, 4294174255,
    4294181597, 4294188806, 4294195885, 4294202836, 4294209665, 4294216374, 4294222965, 4294229443, 4294235810, 4294242069, 4294248222, 4294254273,
    4294260224, 4294266077, 4294271834, 4294277499, 4294283073, 4294288559, 4294293958, 4294299272, 4294304504, 4294309656, 4294314728, 4294319724,
    4294324645, 4294329493, 4294334268, 4294338973, 4294343610, 4294348179, 4294352682, 4294357121, 4294361498, 4294365812, 4294370067, 4294374262,
    4294378400, 4294382481, 4294386506, 4294390477, 4294394395, 4294398260, 4294402075, 4294405839, 4294409554, 4294413221, 4294416841, 4294420414,
    4294423942, 4294427426, 4294430865, 4294434262, 4294437616, 4294440930, 4294444202, 4294447435, 4294450629, 4294453784, 4294456902, 4294459983,
    4294463027, 4294466035, 4294469009, 4294471948, 4294474853, 4294477725, 4294480564, 4294483371, 4294486146, 4294488890, 4294491604, 4294494287,
    4294496941, 4294499566, 4294502163, 4294504731, 4294507272, 4294509785, 4294512272, 4294514732, 4294517167, 4294519576, 4294521959, 4294524318,
    4294526653, 4294528964, 4294531251, 4294533515, 4294535756, 4294537974, 4294540171, 4294542345, 4294544498, 4294546630, 4294548741, 4294550831,
    4294552901, 4294554951, 4294556982, 4294558993, 4294560984, 4294562957, 4294564912, 4294566848, 4294568766, 4294570666, 4294572549, 4294574414,
    4294576262, 4294578094, 4294579909, 4294581707, 4294583489, 4294585256, 4294587006, 4294588741, 4294590461, 4294592166, 4294593856, 4294595531,
    4294597191, 4294598837, 4294600470, 4294602088, 4294603692, 4294605283, 4294606860, 4294608424, 4294609975, 4294611513, 4294613039, 4294614552,
    4294616052, 4294617540, 4294619016, 4294620480, 4294621932, 4294623372, 4294624801, 4294626218, 4294627625, 4294629019, 4294630403, 4294631777,
    4294633139, 4294634491, 4294635832, 4294637163, 4294638484, 4294639794, 4294641095, 4294642385, 4294643666, 4294644938, 4294646199, 4294647451,
    4294648694, 4294649928, 4294651153, 4294652368, 4294653575, 4294654772, 4294655961, 4294657142, 4294658313, 4294659477, 4294660632, 4294661779,
    4294662917, 4294664048, 4294665170, 4294666285, 4294667392, 4294668491, 4294669582, 4294670666, 4294671742, 4294672811, 4294673873, 4294674927,
    4294675974, 4294677014, 4294678047, 4294679073, 4294680092, 4294681104, 4294682110, 4294683108, 4294684101, 4294685086, 4294686065, 4294687038,
    4294688004, 4294688964, 4294689918, 4294690866, 4294691807, 4294692743, 4294693672, 4294694596, 4294695513, 4294696425, 4294697331, 4294698232,
    4294699126, 4294700016, 4294700899, 4294701777, 4294702650, 4294703517, 4294704379, 4294705236, 4294706087, 4294706933, 4294707774, 4294708610,
    4294709441, 4294710267, 4294711088, 4294711904, 4294712715, 4294713522, 4294714323, 4294715120, 4294715912, 4294716700, 4294717483, 4294718261,
    4294719035, 4294719804, 4294720569, 4294721330, 4294722086, 4294722838, 4294723585, 4294724329, 4294725068, 4294725803, 4294726533, 4294727260,
    4294727982, 4294728701, 4294729415, 4294730126, 4294730833, 4294731535, 4294732234, 4294732929, 4294733620, 4294734308, 4294734992, 4294735672,
    4294736348, 4294737020, 4294737690, 4294738355, 4294739017, 4294739675, 4294740330, 4294740982, 4294741630, 4294742274, 4294742915, 4294743553,
    4294744188, 4294744819, 4294745447, 4294746071, 4294746693, 4294747311, 4294747926, 4294748538, 4294749147, 4294749752, 4294750355, 4294750955,
    4294751551, 4294752145, 4294752735, 4294753323, 4294753907, 4294754489, 4294755068, 4294755644, 4294756217, 4294756787, 4294757355, 4294757920,
    4294758481, 4294759041, 4294759597, 4294760151, 4294760702, 4294761251, 4294761796, 4294762340, 4294762880, 4294763418, 4294763954, 4294764487,
    4294765017, 4294765545, 4294766070, 4294766593, 4294767114, 4294767632, 4294768147, 4294768660, 4294769171, 4294769680, 4294770186, 4294770690,
    4294771191, 4294771690, 4294772187, 4294772682, 4294773174, 4294773665, 4294774153, 4294774638, 4294775122, 4294775603, 4294776082, 4294776560,
    4294777035, 4294777507, 4294777978, 4294778447, 4294778914, 4294779378, 4294779841, 4294780301, 4294780760, 4294781216, 4294781671, 4294782123,
    4294782574, 4294783022, 4294783469, 4294783914, 4294784357, 4294784798, 4294785237, 4294785674, 4294786110, 4294786543, 4294786975, 4294787405,
    4294787833, 4294788259, 4294788684, 4294789106, 4294789527, 4294789947, 4294790364, 4294790780, 4294791194, 4294791606, 4294792017, 4294792426,
    4294792833, 4294793239, 4294793643, 4294794045, 4294794446, 4294794845, 4294795243, 4294795639, 4294796033, 4294796426, 4294796817, 4294797207,
    4294797595, 4294797981, 4294798366, 4294798750, 4294799132, 4294799512, 4294799891, 4294800269, 4294800645, 4294801019, 4294801392, 4294801764,
    4294802134, 4294802503, 4294802870, 4294803236, 4294803601, 4294803964, 4294804326, 4294804686, 4294805045, 4294805403, 4294805759, 4294806114,
    4294806468, 4294806820, 4294807171, 4294807521, 4294807869, 4294808217, 4294808562, 4294808907, 4294809250, 4294809592, 4294809933, 4294810272,
    4294810610, 4294810947, 4294811283, 4294811618, 4294811951, 4294812283, 4294812614, 4294812944, 4294813272, 4294813599, 4294813926, 4294814250,
    4294814574, 4294814897, 4294815218, 4294815539, 4294815858, 4294816176, 4294816493, 4294816809, 4294817124, 4294817437, 4294817750, 4294818061,
    4294818372, 4294818681, 4294818989, 4294819296, 4294819603, 4294819908, 4294820212, 4294820514, 4294820816, 4294821117, 4294821417, 4294821716,
    4294822014, 4294822310, 4294822606, 4294822901, 4294823195, 4294823488, 4294823779, 4294824070, 4294824360, 4294824649, 4294824937, 4294825224,
    4294825510, 4294825795, 4294826079, 4294826362, 4294826645, 4294826926, 4294827206, 4294827486, 4294827764, 4294828042, 4294828319, 4294828595,
    4294828870, 4294829144, 4294829417, 4294829689, 4294829961, 4294830231, 4294830501, 4294830770, 4294831038, 4294831305, 4294831571, 4294831837,
    4294832101, 4294832365, 4294832628, 4294832890, 4294833151, 4294833412, 4294833671, 4294833930, 4294834188, 4294834445, 4294834702, 4294834957,
    4294835212, 4294835466, 4294835720, 4294835972, 4294836224, 4294836475, 4294836725, 4294836974, 4294837223, 4294837471, 4294837718, 4294837964,
    4294838210, 4294838455, 4294838699, 4294838943, 4294839185, 4294839427, 4294839669, 4294839909, 4294840149, 4294840388, 4294840627, 4294840864,
    4294841101, 4294841337, 4294841573, 4294841808, 4294842042, 4294842276, 4294842509, 4294842741, 4294842972, 4294843203, 4294843433, 4294843663,
    4294843892, 4294844120, 4294844347, 4294844574, 4294844800, 4294845026, 4294845251, 4294845475, 4294845699, 4294845922, 4294846144, 4294846366,
    4294846587, 4294846807, 4294847027, 4294847246, 4294847465, 4294847683, 4294847900, 4294848117, 4294848333, 4294848549, 4294848764, 4294848978,
    4294849192, 4294849405, 4294849618, 4294849830, 4294850042, 4294850252, 4294850463, 4294850673, 4294850882, 4294851090, 4294851298, 4294851506,
    4294851713, 4294851919, 4294852125, 4294852330, 4294852535, 4294852739, 4294852942, 4294853145, 4294853348, 4294853550, 4294853751, 4294853952,
    4294854153, 4294854352, 4294854552, 4294854750, 4294854949, 4294855146, 4294855344, 4294855540, 4294855736, 4294855932, 4294856127, 4294856322,
    4294856516, 4294856710, 4294856903, 4294857095, 4294857288, 4294857479, 4294857670, 4294857861, 4294858051, 4294858241, 4294858430, 4294858619,
    4294858807, 4294858995, 4294859182, 4294859369, 4294859555, 4294859741, 4294859927, 4294860112, 4294860296, 4294860480, 4294860664, 4294860847,
    4294861030, 4294861212, 4294861394, 4294861575, 4294861756, 4294861936, 4294862116, 4294862296, 4294862475, 4294862653, 4294862831, 4294863009,
    4294863187, 4294863363, 4294863540, 4294863716, 4294863892, 4294864067, 4294864242, 4294864416, 4294864590, 4294864763, 4294864936, 4294865109,
    4294865281, 4294865453, 4294865625, 4294865796, 4294865966, 4294866137, 4294866306, 4294866476, 4294866645, 4294866814, 4294866982, 4294867150,
    4294867317, 4294867484, 4294867651, 4294867817, 4294867983, 4294868148, 4294868314, 4294868478, 4294868643, 4294868807, 4294868970, 4294869133,
    4294869296, 4294869459, 4294869621, 4294869783, 4294869944, 4294870105, 4294870266, 4294870426, 4294870586, 4294870745, 4294870905, 4294871063,
    4294871222, 4294871380, 4294871538, 4294871695, 4294871852, 4294872009, 4294872165, 4294872321, 4294872477, 4294872632, 4294872787, 4294872942,
    4294873096, 4294873250, 4294873404, 4294873557, 4294873710, 4294873862, 4294874015, 4294874167, 4294874318, 4294874470, 4294874621, 4294874771,
    4294874921, 4294875071, 4294875221, 4294875370, 4294875519, 4294875668, 4294875816, 4294875964, 4294876112, 4294876260, 4294876407, 4294876554,
    4294876700, 4294876846, 4294876992, 4294877138, 4294877283, 4294877428, 4294877572, 4294877717, 4294877861, 4294878004, 4294878148, 4294878291,
    4294878434, 4294878576, 4294878719, 4294878861, 4294879002, 4294879144, 4294879285, 4294879425, 4294879566, 4294879706, 4294879846, 4294879986,
    4294880125, 4294880264, 4294880403, 4294880541, 4294880679, 4294880817, 4294880955, 4294881092, 4294881230, 4294881366, 4294881503, 4294881639,
    4294881775, 4294881911, 4294882046, 4294882182, 4294882316, 4294882451, 4294882586, 4294882720, 4294882853, 4294882987, 4294883120, 4294883253,
    4294883386, 4294883519, 4294883651, 4294883783, 4294883915, 4294884046, 4294884178, 4294884309, 4294884439, 4294884570, 4294884700, 4294884830,
    4294884960, 4294885089, 4294885218, 4294885347, 4294885476, 4294885605, 4294885733, 4294885861, 4294885989, 4294886116, 4294886243, 4294886371,
    4294886497, 4294886624, 4294886750, 4294886876, 4294887002, 4294887128, 4294887253, 4294887378, 4294887503, 4294887628, 4294887752, 4294887876,
    4294888000, 4294888124, 4294888248, 4294888371, 4294888494, 4294888617, 4294888739, 4294888862, 4294888984, 4294889106, 4294889228, 4294889349,
    4294889470, 4294889591, 4294889712, 4294889833, 4294889953, 4294890073, 4294890193, 4294890313, 4294890432, 4294890552, 4294890671, 4294890790,
    4294890908, 4294891027, 4294891145, 4294891263, 4294891381, 4294891499, 4294891616, 4294891733, 4294891850, 4294891967, 4294892083, 4294892200,
    4294892316, 4294892432, 4294892548, 4294892663, 4294892779, 4294892894, 4294893009, 4294893124, 4294893238, 4294893352, 4294893467, 4294893581,
    4294893694, 4294893808, 4294893921, 4294894034, 4294894147, 4294894260, 4294894373, 4294894485, 4294894597, 4294894709, 4294894821, 4294894933,
    4294895044, 4294895156, 4294895267, 4294895378, 4294895488, 4294895599, 4294895709, 4294895819, 4294895929, 4294896039, 4294896149, 4294896258,
    4294896367, 4294896476, 4294896585, 4294896694, 4294896802, 4294896911, 4294897019, 4294897127, 4294897235, 4294897342, 4294897450, 4294897557,
    4294897664, 4294897771, 4294897878, 4294897984, 4294898091, 4294898197, 4294898303, 4294898409, 4294898515, 4294898620, 4294898726, 4294898831,
    4294898936, 4294899041, 4294899145, 4294899250, 4294899354, 4294899459, 4294899563, 4294899667, 4294899770, 4294899874, 4294899977, 4294900080,
    4294900183, 4294900286, 4294900389, 4294900492, 4294900594, 4294900696, 4294900798, 4294900900, 4294901002, 4294901104, 4294901205, 4294901307,
    4294901408, 4294901509, 4294901610, 4294901710,
];


} // verus!
