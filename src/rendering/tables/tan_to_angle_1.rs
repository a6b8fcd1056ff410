use vstd::prelude::*;

verus! {

/// Entries 1024 to 2047 of the arc tangent table.
pub closed spec fn entry(i: int) -> u32 {
    ENTRIES[i]
}

pub fn entry_at(i: usize) -> (r: u32)
    requires
        i < 1024,
    ensures
        r == entry(i as int),
{
    ENTRIES[i]
}

const ENTRIES: [u32; 1024] = [
    316933408, 317200384, 317467232, 317733984, 318000640, 318267200, 318533632, 318799968, 319066208, 319332352, 319598368, 319864288,
    320130112, 320395808, 320661408, 320926912, 321192320, 321457632, 321722816, 321987904, 322252864, 322517760, 322782528, 323047200,
    323311744, 323576192, 323840544, 324104800, 324368928, 324632992, 324896928, 325160736, 325424448, 325688096, 325951584, 326215008,
    326478304, 326741504, 327004608, 327267584, 327530464, 327793248, 328055904, 328318496, 328580960, 328843296, 329105568, 329367712,
    329629760, 329891680, 330153536, 330415264, 330676864, 330938400, 331199808, 331461120, 331722304, 331983392, 332244384, 332505280,
    332766048, 333026752, 333287296, 333547776, 333808128, 334068384, 334328544, 334588576, 334848512, 335108352, 335368064, 335627712,
    335887200, 336146624, 336405920, 336665120, 336924224, 337183200, 337442112, 337700864, 337959552, 338218112, 338476576, 338734944,
    338993184, 339251328, 339509376, 339767296, 340025120, 340282848, 340540480, 340797984, 341055392, 341312704, 341569888, 341826976,
    342083968, 342340832, 342597600, 342854272, 343110848, 343367296, 343623648, 343879904, 344136032, 344392064, 344648000, 344903808,
    345159520, 345415136, 345670656, 345926048, 346181344, 346436512, 346691616, 346946592, 347201440, 347456224, 347710880, 347965440,
    348219872, 348474208, 348728448, 348982592, 349236608, 349490528, 349744320, 349998048, 350251648, 350505152, 350758528, 351011808,
    351264992, 351518048, 351771040, 352023872, 352276640, 352529280, 352781824, 353034272, 353286592, 353538816, 353790944, 354042944,
    354294880, 354546656, 354798368, 355049952, 355301440, 355552800, 355804096, 356055264, 356306304, 356557280, 356808128, 357058848,
    357309504, 357560032, 357810464, 358060768, 358311008, 358561088, 358811104, 359060992, 359310784, 359560480, 359810048, 360059520,
    360308896, 360558144, 360807296, 361056352, 361305312, 361554144, 361802880, 362051488, 362300032, 362548448, 362796736, 363044960,
    363293056, 363541024, 363788928, 364036704, 364284384, 364531936, 364779392, 365026752, 365274016, 365521152, 365768192, 366015136,
    366261952, 366508672, 366755296, 367001792, 367248224, 367494496, 367740704, 367986784, 368232768, 368478656, 368724416, 368970080,
    369215648, 369461088, 369706432, 369951680, 370196800, 370441824, 370686752, 370931584, 371176288, 371420896, 371665408, 371909792,
    372154080, 372398272, 372642336, 372886336, 373130176, 373373952, 373617600, 373861152, 374104608, 374347936, 374591168, 374834304,
    375077312, 375320224, 375563040, 375805760, 376048352, 376290848, 376533248, 376775520, 377017696, 377259776, 377501728, 377743584,
    377985344, 378227008, 378468544, 378709984, 378951328, 379192544, 379433664, 379674688, 379915584, 380156416, 380397088, 380637696,
    380878176, 381118560, 381358848, 381599040, 381839104, 382079072, 382318912, 382558656, 382798304, 383037856, 383277280, 383516640,
    383755840, 383994976, 384233984, 384472896, 384711712, 384950400, 385188992, 385427488, 385665888, 385904160, 386142336, 386380384,
    386618368, 386856224, 387093984, 387331616, 387569152, 387806592, 388043936, 388281152, 388518272, 388755296, 388992224, 389229024,
    389465728, 389702336, 389938816, 390175200, 390411488, 390647680, 390883744, 391119712, 391355584, 391591328, 391826976, 392062528,
    392297984, 392533312, 392768544, 393003680, 393238720, 393473632, 393708448, 393943168, 394177760, 394412256, 394646656, 394880960,
    395115136, 395349216, 395583200, 395817088, 396050848, 396284512, 396518080, 396751520, 396984864, 397218112, 397451264, 397684288,
    397917248, 398150080, 398382784, 398615424, 398847936, 399080320, 399312640, 399544832, 399776928, 400008928, 400240832, 400472608,
    400704288, 400935872, 401167328, 401398720, 401629984, 401861120, 402092192, 402323136, 402553984, 402784736, 403015360, 403245888,
    403476320, 403706656, 403936896, 404167008, 404397024, 404626944, 404856736, 405086432, 405316032, 405545536, 405774912, 406004224,
    406233408, 406462464, 406691456, 406920320, 407149088, 407377760, 407606336, 407834784, 408063136, 408291392, 408519520, 408747584,
    408975520, 409203360, 409431072, 409658720, 409886240, 410113664, 410340992, 410568192, 410795296, 411022304, 411249216, 411476032,
    411702720, 411929312, 412155808, 412382176, 412608480, 412834656, 413060736, 413286720, 413512576, 413738336, 413964000, 414189568,
    414415040, 414640384, 414865632, 415090784, 415315840, 415540800, 415765632, 415990368, 416215008, 416439552, 416663968, 416888288,
    417112512, 417336640, 417560672, 417784576, 418008384, 418232096, 418455712, 418679200, 418902624, 419125920, 419349120, 419572192,
    419795200, 420018080, 420240864, 420463552, 420686144, 420908608, 421130976, 421353280, 421575424, 421797504, 422019488, 422241344,
    422463104, 422684768, 422906336, 423127776, 423349120, 423570400, 423791520, 424012576, 424233536, 424454368, 424675104, 424895744,
    425116288, 425336736, 425557056, 425777280, 425997408, 426217440, 426437376, 426657216, 426876928, 427096544, 427316064, 427535488,
    427754784, 427974016, 428193120, 428412128, 428631040, 428849856, 429068544, 429287168, 429505664, 429724064, 429942368, 430160576,
    430378656, 430596672, 430814560, 431032352, 431250048, 431467648, 431685120, 431902496, 432119808, 432336992, 432554080, 432771040,
    432987936, 433204736, 433421408, 433637984, 433854464, 434070848, 434287104, 434503296, 434719360, 434935360, 435151232, 435367008,
    435582656, 435798240, 436013696, 436229088, 436444352, 436659520, 436874592, 437089568, 437304416, 437519200, 437733856, 437948416,
    438162880, 438377248, 438591520, 438805696, 439019744, 439233728, 439447584, 439661344, 439875008, 440088576, 440302048, 440515392,
    440728672, 440941824, 441154912, 441367872, 441580736, 441793504, 442006144, 442218720, 442431168, 442643552, 442855808, 443067968,
    443280032, 443492000, 443703872, 443915648, 444127296, 444338880, 444550336, 444761728, 444972992, 445184160, 445395232, 445606208,
    445817056, 446027840, 446238496, 446449088, 446659552, 446869920, 447080224, 447290400, 447500448, 447710432, 447920320, 448130112,
    448339776, 448549376, 448758848, 448968224, 449177536, 449386720, 449595808, 449804800, 450013664, 450222464, 450431168, 450639776,
    450848256, 451056640, 451264960, 451473152, 451681248, 451889248, 452097184, 452304960, 452512672, 452720288, 452927808, 453135232,
    453342528, 453549760, 453756864, 453963904, 454170816, 454377632, 454584384, 454791008, 454997536, 455203968, 455410304, 455616544,
    455822688, 456028704, 456234656, 456440512, 456646240, 456851904, 457057472, 457262912, 457468256, 457673536, 457878688, 458083776,
    458288736, 458493600, 458698368, 458903040, 459107616, 459312096, 459516480, 459720768, 459924960, 460129056, 460333056, 460536960,
    460740736, 460944448, 461148064, 461351584, 461554976, 461758304, 461961536, 462164640, 462367680, 462570592, 462773440, 462976160,
    463178816, 463381344, 463583776, 463786144, 463988384, 464190560, 464392608, 464594560, 464796448, 464998208, 465199872, 465401472,
    465602944, 465804320, 466005600, 466206816, 466407904, 466608896, 466809824, 467010624, 467211328, 467411936, 467612480, 467812896,
    468013216, 468213440, 468413600, 468613632, 468813568, 469013440, 469213184, 469412832, 469612416, 469811872, 470011232, 470210528,
    470409696, 470608800, 470807776, 471006688, 471205472, 471404192, 471602784, 471801312, 471999712, 472198048, 472396288, 472594400,
    472792448, 472990400, 473188256, 473385984, 473583648, 473781216, 473978688, 474176064, 474373344, 474570528, 474767616, 474964608,
    475161504, 475358336, 475555040, 475751648, 475948192, 476144608, 476340928, 476537184, 476733312, 476929376, 477125344, 477321216,
    477516960, 477712640, 477908224, 478103712, 478299104, 478494400, 478689600, 478884704, 479079744, 479274656, 479469504, 479664224,
    479858880, 480053408, 480247872, 480442240, 480636512, 480830656, 481024736, 481218752, 481412640, 481606432, 481800128, 481993760,
    482187264, 482380704, 482574016, 482767264, 482960416, 483153472, 483346432, 483539296, 483732064, 483924768, 484117344, 484309856,
    484502240, 484694560, 484886784, 485078912, 485270944, 485462880, 485654720, 485846464, 486038144, 486229696, 486421184, 486612576,
    486803840, 486995040, 487186176, 487377184, 487568096, 487758944, 487949664, 488140320, 488330880, 488521312, 488711712, 488901984,
    489092160, 489282240, 489472256, 489662176, 489851968, 490041696, 490231360, 490420896, 490610336, 490799712, 490988960, 491178144,
    491367232, 491556224, 491745120, 491933920, 492122656, 492311264, 492499808, 492688256, 492876608, 493064864, 493253056, 493441120,
    493629120, 493817024, 494004832, 494192544, 494380160, 494567712, 494755136, 494942496, 495129760, 495316928, 495504000, 495691008,
    495877888, 496064704, 496251424, 496438048, 496624608, 496811040, 496997408, 497183680, 497369856, 497555936, 497741920, 497927840,
    498113632, 498299360, 498484992, 498670560, 498856000, 499041376, 499226656, 499411840, 499596928, 499781920, 499966848, 500151680,
    500336416, 500521056, 500705600, 500890080, 501074464, 501258752, 501442944, 501627040, 501811072, 501995008, 502178848, 502362592,
    502546240, 502729824, 502913312, 503096704, 503280000, 503463232, 503646368, 503829408, 504012352, 504195200, 504377984, 504560672,
    504743264, 504925760, 505108192, 505290496, 505472736, 505654912, 505836960, 506018944, 506200832, 506382624, 506564320, 506745952,
    506927488, 507108928, 507290272, 507471552, 507652736, 507833824, 508014816, 508195744, 508376576, 508557312, 508737952, 508918528,
    509099008, 509279392, 509459680, 509639904, 509820032, 510000064, 510180000, 510359872, 510539648, 510719328, 510898944, 511078432,
    511257856, 511437216, 511616448, 511795616, 511974688, 512153664, 512332576, 512511392, 512690112, 512868768, 513047296, 513225792,
    513404160, 513582464, 513760640, 513938784, 514116800, 514294752, 514472608, 514650368, 514828064, 515005664, 515183168, 515360608,
    515537952, 515715200, 515892352, 516069440, 516246432, 516423328, 516600160, 516776896, 516953536, 517130112, 517306592, 517482976,
    517659264, 517835488, 518011616, 518187680, 518363648, 518539520, 518715296, 518891008, 519066624, 519242144, 519417600, 519592960,
    519768256, 519943424, 520118528, 520293568, 520468480, 520643328, 520818112, 520992800, 521167392, 521341888, 521516320, 521690656,
    521864896, 522039072, 522213152, 522387168, 522561056, 522734912, 522908640, 523082304, 523255872, 523429376, 523602784, 523776096,
    523949312, 524122464, 524295552, 524468544, 524641440, 524814240, 524986976, 525159616, 525332192, 525504640, 525677056, 525849344,
    526021568, 526193728, 526365792, 526537760, 526709632, 526881440, 527053152, 527224800, 527396352, 527567840, 527739200, 527910528,
    528081728, 528252864, 528423936, 528594880, 528765760, 528936576, 529107296, 529277920, 529448480, 529618944, 529789344, 529959648,
    530129856, 530300000, 530470048, 530640000, 530809888, 530979712, 531149440, 531319072, 531488608, 531658080, 531827488, 531996800,
    532166016, 532335168, 532504224, 532673184, 532842080, 533010912, 533179616, 533348288, 533516832, 533685312, 533853728, 534022048,
    534190272, 534358432, 534526496, 534694496, 534862400, 535030240, 535197984, 535365632, 535533216, 535700704, 535868128, 536035456,
    536202720, 536369888, 536536992, 536704000,
];


} // verus!
