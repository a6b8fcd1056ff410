use vstd::prelude::*;

verus! {

/// Entries 0 to 1023 of the arc tangent table.
pub closed spec fn entry(i: int) -> u32 {
    ENTRIES[i]
}

pub fn entry_at(i: usize) -> (r: u32)
    requires
        i < 1024,
    ensures
        r == entry(i as int),
{
    ENTRIES[i]
}

const ENTRIES: [u32; 1024] = [
    0, 333772, 667544, 1001315, 1335086, 1668857, 2002626, 2336395, 2670163, 3003929, 3337694, 3671457,
    4005219, 4338979, 4672736, 5006492, 5340245, 5673995, 6007743, 6341488, 6675230, 7008968, 7342704, 7676436,
    8010164, 8343888, 8677609, 9011325, 9345037, 9678744, 10012447, 10346145, 10679838, 11013526, 11347209, 11680887,
    12014559, 12348225, 12681885, 13015539, 13349187, 13682829, 14016464, 14350092, 14683714, 15017328, 15350936, 15684536,
    16018129, 16351714, 16685291, 17018860, 17352422, 17685974, 18019518, 18353054, 18686582, 19020100, 19353610, 19687110,
    20020600, 20354080, 20687552, 21021014, 21354466, 21687906, 22021338, 22354758, 22688168, 23021568, 23354956, 23688332,
    24021698, 24355052, 24688396, 25021726, 25355046, 25688352, 26021648, 26354930, 26688200, 27021456, 27354702, 27687932,
    28021150, 28354356, 28687548, 29020724, 29353888, 29687038, 30020174, 30353296, 30686404, 31019496, 31352574, 31685636,
    32018684, 32351718, 32684734, 33017736, 33350722, 33683692, 34016648, 34349584, 34682508, 35015412, 35348300, 35681172,
    36014028, 36346868, 36679688, 37012492, 37345276, 37678044, 38010792, 38343528, 38676240, 39008936, 39341612, 39674272,
    40006912, 40339532, 40672132, 41004716, 41337276, 41669820, 42002344, 42334848, 42667332, 42999796, 43332236, 43664660,
    43997060, 44329444, 44661800, 44994140, 45326460, 45658752, 45991028, 46323280, 46655512, 46987720, 47319908, 47652072,
    47984212, 48316332, 48648428, 48980500, 49312548, 49644576, 49976580, 50308556, 50640512, 50972444, 51304352, 51636236,
    51968096, 52299928, 52631740, 52963524, 53295284, 53627020, 53958728, 54290412, 54622068, 54953704, 55285308, 55616888,
    55948444, 56279972, 56611472, 56942948, 57274396, 57605816, 57937212, 58268576, 58599916, 58931228, 59262512, 59593768,
    59924992, 60256192, 60587364, 60918508, 61249620, 61580704, 61911760, 62242788, 62573788, 62904756, 63235692, 63566604,
    63897480, 64228332, 64559148, 64889940, 65220696, 65551424, 65882120, 66212788, 66543420, 66874024, 67204600, 67535136,
    67865648, 68196120, 68526568, 68856984, 69187360, 69517712, 69848024, 70178304, 70508560, 70838776, 71168960, 71499112,
    71829224, 72159312, 72489360, 72819376, 73149360, 73479304, 73809216, 74139096, 74468936, 74798744, 75128520, 75458264,
    75787968, 76117632, 76447264, 76776864, 77106424, 77435952, 77765440, 78094888, 78424304, 78753688, 79083032, 79412336,
    79741608, 80070840, 80400032, 80729192, 81058312, 81387392, 81716432, 82045440, 82374408, 82703336, 83032224, 83361080,
    83689896, 84018664, 84347400, 84676096, 85004760, 85333376, 85661952, 85990488, 86318984, 86647448, 86975864, 87304240,
    87632576, 87960872, 88289128, 88617344, 88945520, 89273648, 89601736, 89929792, 90257800, 90585760, 90913688, 91241568,
    91569408, 91897208, 92224960, 92552672, 92880336, 93207968, 93535552, 93863088, 94190584, 94518040, 94845448, 95172816,
    95500136, 95827416, 96154648, 96481832, 96808976, 97136080, 97463136, 97790144, 98117112, 98444032, 98770904, 99097736,
    99424520, 99751256, 100077944, 100404592, 100731192, 101057744, 101384248, 101710712, 102037128, 102363488, 102689808, 103016080,
    103342312, 103668488, 103994616, 104320696, 104646736, 104972720, 105298656, 105624552, 105950392, 106276184, 106601928, 106927624,
    107253272, 107578872, 107904416, 108229920, 108555368, 108880768, 109206120, 109531416, 109856664, 110181872, 110507016, 110832120,
    111157168, 111482168, 111807112, 112132008, 112456856, 112781648, 113106392, 113431080, 113755720, 114080312, 114404848, 114729328,
    115053760, 115378136, 115702464, 116026744, 116350960, 116675128, 116999248, 117323312, 117647320, 117971272, 118295176, 118619024,
    118942816, 119266560, 119590248, 119913880, 120237456, 120560984, 120884456, 121207864, 121531224, 121854528, 122177784, 122500976,
    122824112, 123147200, 123470224, 123793200, 124116120, 124438976, 124761784, 125084528, 125407224, 125729856, 126052432, 126374960,
    126697424, 127019832, 127342184, 127664472, 127986712, 128308888, 128631008, 128953072, 129275080, 129597024, 129918912, 130240744,
    130562520, 130884232, 131205888, 131527480, 131849016, 132170496, 132491912, 132813272, 133134576, 133455816, 133776992, 134098120,
    134419184, 134740176, 135061120, 135382000, 135702816, 136023584, 136344272, 136664912, 136985488, 137306016, 137626464, 137946864,
    138267184, 138587456, 138907664, 139227808, 139547904, 139867920, 140187888, 140507776, 140827616, 141147392, 141467104, 141786752,
    142106336, 142425856, 142745312, 143064720, 143384048, 143703312, 144022512, 144341664, 144660736, 144979744, 145298704, 145617584,
    145936400, 146255168, 146573856, 146892480, 147211040, 147529536, 147847968, 148166336, 148484640, 148802880, 149121056, 149439152,
    149757200, 150075168, 150393072, 150710912, 151028688, 151346400, 151664048, 151981616, 152299136, 152616576, 152933952, 153251264,
    153568496, 153885680, 154202784, 154519824, 154836784, 155153696, 155470528, 155787296, 156104000, 156420624, 156737200, 157053696,
    157370112, 157686480, 158002768, 158318976, 158635136, 158951216, 159267232, 159583168, 159899040, 160214848, 160530592, 160846256,
    161161840, 161477376, 161792832, 162108208, 162423520, 162738768, 163053952, 163369040, 163684080, 163999040, 164313936, 164628752,
    164943504, 165258176, 165572784, 165887312, 166201776, 166516160, 166830480, 167144736, 167458912, 167773008, 168087040, 168400992,
    168714880, 169028688, 169342432, 169656096, 169969696, 170283216, 170596672, 170910032, 171223344, 171536576, 171849728, 172162800,
    172475808, 172788736, 173101600, 173414384, 173727104, 174039728, 174352288, 174664784, 174977200, 175289536, 175601792, 175913984,
    176226096, 176538144, 176850096, 177161984, 177473792, 177785536, 178097200, 178408784, 178720288, 179031728, 179343088, 179654368,
    179965568, 180276704, 180587744, 180898720, 181209616, 181520448, 181831184, 182141856, 182452448, 182762960, 183073408, 183383760,
    183694048, 184004240, 184314368, 184624416, 184934400, 185244288, 185554096, 185863840, 186173504, 186483072, 186792576, 187102000,
    187411344, 187720608, 188029808, 188338912, 188647936, 188956896, 189265760, 189574560, 189883264, 190191904, 190500448, 190808928,
    191117312, 191425632, 191733872, 192042016, 192350096, 192658096, 192966000, 193273840, 193581584, 193889264, 194196848, 194504368,
    194811792, 195119136, 195426400, 195733584, 196040688, 196347712, 196654656, 196961520, 197268304, 197574992, 197881616, 198188144,
    198494592, 198800960, 199107248, 199413456, 199719584, 200025616, 200331584, 200637456, 200943248, 201248960, 201554576, 201860128,
    202165584, 202470960, 202776256, 203081472, 203386592, 203691632, 203996592, 204301472, 204606256, 204910976, 205215600, 205520144,
    205824592, 206128960, 206433248, 206737456, 207041584, 207345616, 207649568, 207953424, 208257216, 208560912, 208864512, 209168048,
    209471488, 209774832, 210078112, 210381296, 210684400, 210987408, 211290336, 211593184, 211895936, 212198608, 212501184, 212803680,
    213106096, 213408432, 213710672, 214012816, 214314880, 214616864, 214918768, 215220576, 215522288, 215823920, 216125472, 216426928,
    216728304, 217029584, 217330784, 217631904, 217932928, 218233856, 218534704, 218835472, 219136144, 219436720, 219737216, 220037632,
    220337952, 220638192, 220938336, 221238384, 221538352, 221838240, 222138032, 222437728, 222737344, 223036880, 223336304, 223635664,
    223934912, 224234096, 224533168, 224832160, 225131072, 225429872, 225728608, 226027232, 226325776, 226624240, 226922608, 227220880,
    227519056, 227817152, 228115168, 228413088, 228710912, 229008640, 229306288, 229603840, 229901312, 230198688, 230495968, 230793168,
    231090256, 231387280, 231684192, 231981024, 232277760, 232574416, 232870976, 233167440, 233463808, 233760096, 234056288, 234352384,
    234648384, 234944304, 235240128, 235535872, 235831504, 236127056, 236422512, 236717888, 237013152, 237308336, 237603424, 237898432,
    238193328, 238488144, 238782864, 239077488, 239372016, 239666464, 239960816, 240255072, 240549232, 240843312, 241137280, 241431168,
    241724960, 242018656, 242312256, 242605776, 242899200, 243192512, 243485744, 243778896, 244071936, 244364880, 244657744, 244950496,
    245243168, 245535744, 245828224, 246120608, 246412912, 246705104, 246997216, 247289216, 247581136, 247872960, 248164688, 248456320,
    248747856, 249039296, 249330640, 249621904, 249913056, 250204128, 250495088, 250785968, 251076736, 251367424, 251658016, 251948512,
    252238912, 252529200, 252819408, 253109520, 253399536, 253689456, 253979280, 254269008, 254558640, 254848176, 255137632, 255426976,
    255716224, 256005376, 256294432, 256583392, 256872256, 257161024, 257449696, 257738272, 258026752, 258315136, 258603424, 258891600,
    259179696, 259467696, 259755600, 260043392, 260331104, 260618704, 260906224, 261193632, 261480960, 261768176, 262055296, 262342320,
    262629248, 262916080, 263202816, 263489456, 263776000, 264062432, 264348784, 264635024, 264921168, 265207216, 265493168, 265779024,
    266064784, 266350448, 266636000, 266921472, 267206832, 267492096, 267777264, 268062336, 268347312, 268632192, 268916960, 269201632,
    269486208, 269770688, 270055072, 270339360, 270623552, 270907616, 271191616, 271475488, 271759296, 272042976, 272326560, 272610048,
    272893440, 273176736, 273459936, 273743040, 274026048, 274308928, 274591744, 274874432, 275157024, 275439520, 275721920, 276004224,
    276286432, 276568512, 276850528, 277132416, 277414240, 277695936, 277977536, 278259040, 278540448, 278821728, 279102944, 279384032,
    279665056, 279945952, 280226752, 280507456, 280788064, 281068544, 281348960, 281629248, 281909472, 282189568, 282469568, 282749440,
    283029248, 283308960, 283588544, 283868032, 284147424, 284426720, 284705920, 284985024, 285264000, 285542912, 285821696, 286100384,
    286378976, 286657440, 286935840, 287214112, 287492320, 287770400, 288048384, 288326240, 288604032, 288881696, 289159264, 289436768,
    289714112, 289991392, 290268576, 290545632, 290822592, 291099456, 291376224, 291652896, 291929440, 292205888, 292482272, 292758528,
    293034656, 293310720, 293586656, 293862496, 294138240, 294413888, 294689440, 294964864, 295240192, 295515424, 295790560, 296065600,
    296340512, 296615360, 296890080, 297164704, 297439200, 297713632, 297987936, 298262144, 298536256, 298810240, 299084160, 299357952,
    299631648, 299905248, 300178720, 300452128, 300725408, 300998592, 301271680, 301544640, 301817536, 302090304, 302362976, 302635520,
    302908000, 303180352, 303452608, 303724768, 303996800, 304268768, 304540608, 304812352, 305083968, 305355520, 305626944, 305898272,
    306169472, 306440608, 306711616, 306982528, 307253344, 307524064, 307794656, 308065152, 308335552, 308605856, 308876032, 309146112,
    309416096, 309685984, 309955744, 310225408, 310494976, 310764448, 311033824, 311303072, 311572224, 311841280, 312110208, 312379040,
    312647776, 312916416, 313184960, 313453376, 313721696, 313989920, 314258016, 314526016, 314793920, 315061728, 315329408, 315597024,
    315864512, 316131872, 316399168, 316666336,
];


} // verus!
