//! The precomputed, validated constant tables both permutations are built
//! from: the Poseidon round-constant table (three constants per round over 8
//! full and 57 partial rounds), the Rescue-Prime round-constant table (three
//! constants per injection, two injections per round over 4 rounds), the
//! shared 3x3 MDS matrix, and the inverse exponent of the Rescue-Prime S-box.
//!
//! Every table entry is a decimal-string literal, parsed once at
//! specification-construction time; the accompanying proofs show each literal
//! is a canonical field element with its documented value, so the standard
//! constructors always succeed and their contracts pin every constant.

use vstd::prelude::*;
use crate::field::{
    dec_str_ok, dec_val, dec_val_chars, digits_pfx, fe_from_decimal, lemma_dec_lit, p_val, Fe,
};
use crate::params::{PoseidonSpec, RescueSpec, SpecError};
use crate::state::{Mds, MdsV};

verus! {

use vstd::string::StringSliceAdditionalSpecFns;
use vstd::arithmetic::div_mod::lemma_fundamental_div_mod_converse;


/// Entry `i` of the shared 3x3 MDS matrix, row by row: the nine documented
/// decimal values.
pub open spec fn std_mds_c(i: int) -> nat {
    if i == 0 {
        27854988750630959170337239780597144027224715023811960992659706878268355039181nat
    } else if i == 1 {
        25146695260744508059100624982461970690166157722474767565243652164077487269055nat
    } else if i == 2 {
        20045359041216123667749848881863965260443684681509271093016182932435520519586nat
    } else if i == 3 {
        14489116502293865465195620705098702569149962166993518933952339786917836503875nat
    } else if i == 4 {
        13125423966940654332711887575940116829944663267413330181877013057693186361539nat
    } else if i == 5 {
        37781904496949962127477230973432217892379931214289750852498713884075794707207nat
    } else if i == 6 {
        13626913895298938265545264952401615832299228269982032679076937571883280705196nat
    } else if i == 7 {
        1961062001717124873779753860369853658060849384038305407377314938662537282272nat
    } else {
        39178371364179396693874733819376491076633720395229958100530484864695867731796nat
    }
}

/// The shared MDS matrix's mathematical value, row by row.
pub open spec fn std_mds_v() -> MdsV {
    MdsV {
        m00: std_mds_c(0),
        m01: std_mds_c(1),
        m02: std_mds_c(2),
        m10: std_mds_c(3),
        m11: std_mds_c(4),
        m12: std_mds_c(5),
        m20: std_mds_c(6),
        m21: std_mds_c(7),
        m22: std_mds_c(8),
    }
}

/// Block 1 of the Poseidon round-constant table: documented decimal
/// values 0 to 38.
pub open spec fn pose_c_a(i: int) -> nat {
    if i == 0 {
        48991097081732275468845314168021420565497297775988823234113406403095118809216nat
    } else if i == 1 {
        38385660029618165285848698857635215143135976511856402182142757680787979296154nat
    } else if i == 2 {
        45664917788634056160947231182803089169570746657219074370482409200042991921246nat
    } else if i == 3 {
        46611823467219910333349433978991031443945697128435279755908258896090196676828nat
    } else if i == 4 {
        21239555800391983336673016232252577145979304597102502292785557024177155115319nat
    } else if i == 5 {
        5444549814002252718699361548642546874417220826495496552290417094191494299797nat
    } else if i == 6 {
        6120941817780228594851185625662354154126315032538247033968198498911791651970nat
    } else if i == 7 {
        23268934541565483112488314239282439244757346303484537549209002605218913236536nat
    } else if i == 8 {
        34778900561716047730386110499058136122597669775051061603711724688203374984731nat
    } else if i == 9 {
        11866412958831620887953860204795878894545618212709331023611019011793447488176nat
    } else if i == 10 {
        1292810553955081089139103033821163176614817808018762694232693357405135340213nat
    } else if i == 11 {
        29829440149074940820671559824872937980763748927491238614065138142835318453671nat
    } else if i == 12 {
        43007325278312980663982452106946226844964622384017700838855297379677047113384nat
    } else if i == 13 {
        6207852559847946300667836829798951848361581084433525098597857899536657157132nat
    } else if i == 14 {
        51263844854419207560514475863120683772532929850629546992690510884221364990253nat
    } else if i == 15 {
        47537207485065031976374469967696134772574834313568026823983918780308518394040nat
    } else if i == 16 {
        2221931791899303960239149702171682649773262449196140787838362753706579104592nat
    } else if i == 17 {
        39456839086017037141295863080128693714705835125922448198802062180577619415688nat
    } else if i == 18 {
        7307684192235537965831376311417883513796535701244096178785218530839409056523nat
    } else if i == 19 {
        40363790847223872255995860144037894400158879326818322790255787884037990480527nat
    } else if i == 20 {
        46370977865329511267956842930057959446221524060145738210680245530954549945015nat
    } else if i == 21 {
        31963375456062604704511762940421329756212766442452555529101241339674782334039nat
    } else if i == 22 {
        14931035994999669353073307088521670981122374648927581516990615825314462827897nat
    } else if i == 23 {
        9146050314741225622437907700594105481623623087635695897868792721147700541623nat
    } else if i == 24 {
        43028866523328004770172322384235815492694573248368601737155468843525625413279nat
    } else if i == 25 {
        10642771813466087799681476709295362996886361934733270333728358675267521442184nat
    } else if i == 26 {
        26204626472182247586446753357603232226235570940686295317661191583409532523578nat
    } else if i == 27 {
        51764778305842182544341507127328333397682018984536762517144144495830254727692nat
    } else if i == 28 {
        46323013798997081811959707047808149003166619133464450127989691277775183404349nat
    } else if i == 29 {
        5482714761779403197336605367697000529513289823583027739458069397684408687717nat
    } else if i == 30 {
        12801259943830582826718901632357112368256632783422449824889858551937326401170nat
    } else if i == 31 {
        24705221370028061177410670936487461711735994635988936070623351799675117594850nat
    } else if i == 32 {
        34818354068777339891091714877681898548352650337240481539567373888981659308099nat
    } else if i == 33 {
        35437981511765462742605234803376772682840664204821301764084738573774616215109nat
    } else if i == 34 {
        1433523918194521021731556457516832465819757187635645935518277720319249889445nat
    } else if i == 35 {
        1786444825311968572352002116054188762971225383128313206702203805257523693888nat
    } else if i == 36 {
        22232073076796622550494050910209988454596433174206874696362037700514082492276nat
    } else if i == 37 {
        24042430109235922611027968831657325520072553641473321784508698720854180658031nat
    } else {
        45406805567398680921065452923276055166961588153660261520529196040913487916279nat
    }
}

/// Block 2 of the Poseidon round-constant table: documented decimal
/// values 39 to 77.
pub open spec fn pose_c_b(i: int) -> nat {
    if i == 39 {
        35053262861048825411061280559553895536192334830763062477277235807515959383150nat
    } else if i == 40 {
        25108964803188800737437394246442073858261740146181095550988111856238954490309nat
    } else if i == 41 {
        35192650141137106058577418514209092904214762437910434967540336800650620041958nat
    } else if i == 42 {
        34220944794619662782589792809938215078980533657269200933482014763836254210880nat
    } else if i == 43 {
        39884393792242132075258602070541114557272278571033974158755307717930033808078nat
    } else if i == 44 {
        6528627567246138898338135471584665860403024864125846353758054588554049365178nat
    } else if i == 45 {
        26135348890537017135058266369936506677345001674530050056494732502158573534651nat
    } else if i == 46 {
        45940975099728729872716617510434185869788979733816569378448209603957649084497nat
    } else if i == 47 {
        15421094974171181812057105309783852016087843260648209913425190920580878315912nat
    } else if i == 48 {
        17821536801502538623431403481143359660601434134694528982404802873816360858943nat
    } else if i == 49 {
        8010729838943058740614807905113741378835761166137481371357965047712306801123nat
    } else if i == 50 {
        18699215163509883263304393673283276029620709331747651039747044003384506899917nat
    } else if i == 51 {
        37045787943638220002917633921716309877792707850558591835874081145770158399128nat
    } else if i == 52 {
        21575637935417645110089037900895429146838845113516284564671508366546944971174nat
    } else if i == 53 {
        1788789771738709712587591109966362080868778924904243569200231458308784197447nat
    } else if i == 54 {
        31893695366599021197812621371715665903315747385247436549810717167321695484766nat
    } else if i == 55 {
        51153400179598348220410722401172031495931771158209082356586940118519763307990nat
    } else if i == 56 {
        27065341612806387486757726552834268222391812301897865130062594135449450311205nat
    } else if i == 57 {
        21631377794423816098233500204394685009343254816615902551641496756763638503963nat
    } else if i == 58 {
        48126155452550090941025807356211843589751116110477652511672279566428926247148nat
    } else if i == 59 {
        41945332685105951593851845839403181725987901258063429769257339995392450728766nat
    } else if i == 60 {
        24296067579767080403247766323431204628341605710487447431323947636125286730412nat
    } else if i == 61 {
        15881178462681378844988252603563609691162651204658664856493588769950563205407nat
    } else if i == 62 {
        33027381395215663927148306470841421013404116814305740800948949823021554274098nat
    } else if i == 63 {
        39278310473084767209787340524936392884387815060990743323143945308386189000820nat
    } else if i == 64 {
        36914830105593239127583246606078015086694578878061417360363710472659792271157nat
    } else if i == 65 {
        2471481831227881021689006198592503194795082772689986463565415296171852015386nat
    } else if i == 66 {
        10133170919569185596470854926690039229735632740212998846069400800395437949818nat
    } else if i == 67 {
        13713875128407368240685505357662717227751490836079655538057610707920043576169nat
    } else if i == 68 {
        8342666644640774986634432327796294683569398370446186977217700283927741456745nat
    } else if i == 69 {
        46601389125814748868096111624907238097032545985765609175268428943258314495300nat
    } else if i == 70 {
        20955390743109511563797223108807741951396100480021156649651505770632943438749nat
    } else if i == 71 {
        30784566406743698397200754777301033281231860349200935908047757137616877875074nat
    } else if i == 72 {
        48343196439030272896030042717039190414055291776286919553358305329065060244544nat
    } else if i == 73 {
        5454630884154432785537568532823077194524789618913833351503828005963129645447nat
    } else if i == 74 {
        5929264687259766357446095238429932392315604113095822327000589827415320983004nat
    } else if i == 75 {
        22075444908821639097706881947036304396835729534515628434816919715415538390017nat
    } else if i == 76 {
        25941058816975140552446994550948593572939163972016393579803457030200129476973nat
    } else {
        39776348414428957147819346902864822521632016599308432283712625663034427240337nat
    }
}

/// Block 3 of the Poseidon round-constant table: documented decimal
/// values 78 to 116.
pub open spec fn pose_c_c(i: int) -> nat {
    if i == 78 {
        7416720880414633042939600412231360970614004283597614937824398530497243499212nat
    } else if i == 79 {
        27759512177446113435859126093069895419463054324674208616122176370583357562941nat
    } else if i == 80 {
        2693390255841122228782459820336527344026453452088174693463152401174043438469nat
    } else if i == 81 {
        50367239350666539482528955684311280608817276753868085587890812549436189586564nat
    } else if i == 82 {
        16174733649048109460569124327899128868049112853807486992529031028618670502840nat
    } else if i == 83 {
        25032516686620026063532769674876936116496163673410980298313095252836905833243nat
    } else if i == 84 {
        29144403930621998939944109351403497411548441156029659945515675350299265094466nat
    } else if i == 85 {
        2003270776024057925128728348175382837282431082428047352264694823915738934597nat
    } else if i == 86 {
        33363216671247018657387321397537436143187354110057266627888117938607035196831nat
    } else if i == 87 {
        20203086474546098412356910533884833744816739556295954278635367853784856438617nat
    } else if i == 88 {
        42960220771318412318176969631346524408076008158165832346168142557674200614679nat
    } else if i == 89 {
        6311431299350400649257553117850994107778654765725553469026713480041524237057nat
    } else if i == 90 {
        20356164198757608998824195662812920762417225019317083164408248459556033087792nat
    } else if i == 91 {
        50934696509775059306730966013034554090787668615778167832259926621090584698298nat
    } else if i == 92 {
        12540543785093585171832085015032615168496292565469198040103631290639480719638nat
    } else if i == 93 {
        7087832377964131545651220267742883342179930832350845193376391176592931716961nat
    } else if i == 94 {
        34984411233898940973869087861225504483500912780307024595154545196097892807889nat
    } else if i == 95 {
        35766364158306764887416108757297765472332147961010533956614913565935878448984nat
    } else if i == 96 {
        1765971701998656161486995693692800538505518481763639488010072221442068236951nat
    } else if i == 97 {
        52296260704967533238281867983484652098827616020272035805695017707768629021210nat
    } else if i == 98 {
        4935673489774322197628160742241883723281125866438378640636969542959380659457nat
    } else if i == 99 {
        49493374663267588751846054378343301708694531580092984346087290317742537210902nat
    } else if i == 100 {
        11234520985865325412206403291118519753189986845681526796638090446788348697652nat
    } else if i == 101 {
        24240566602759984788029880030276085623682320979885122363103446030346976862554nat
    } else if i == 102 {
        45173673056688650486124798353267048676515652881324846851443098010775612892322nat
    } else if i == 103 {
        273339079894952168974065527137723282564095652951909656957160946114792896627nat
    } else if i == 104 {
        4470325051640351957976738782642661997153601739638632363210829100051811744274nat
    } else if i == 105 {
        35146154431885107533179241729875580217482204780231937987130147605583867466092nat
    } else if i == 106 {
        5623976303155942456710618286519758761204923686926813378548021075733755166889nat
    } else if i == 107 {
        24016465951530015578209275233668961482322584131459513288081598210134015257997nat
    } else if i == 108 {
        17969920097176891022415687639709999939084490545645205326481661860931808113029nat
    } else if i == 109 {
        45152206508674411747856285000257938228137174933577379726580072509850619926251nat
    } else if i == 110 {
        38945634795250927360607537392732805897873100986379288027606175928019977509609nat
    } else if i == 111 {
        32851666289693613044889283133849490343674968726730793059165429991055922454070nat
    } else if i == 112 {
        31944620853700630151347751910587969550223781655480776781612692884058563662268nat
    } else if i == 113 {
        25256966274452535017610572446887439115046074651331211781708168773655007778872nat
    } else if i == 114 {
        9486939021502590608732001628331695421223550406038486802197261945175668785507nat
    } else if i == 115 {
        39459143086960362426927505137137876218390935544236059938922871880000296175208nat
    } else {
        31894450224048346260322339655447950546670422421242715439734122749915296243605nat
    }
}

/// Block 4 of the Poseidon round-constant table: documented decimal
/// values 117 to 155.
pub open spec fn pose_c_d(i: int) -> nat {
    if i == 117 {
        26892539091318428420931225040417651442139701587930804697886023619431558542747nat
    } else if i == 118 {
        2542844944718735302766446637202404427628413878092734865912744553984157161261nat
    } else if i == 119 {
        31883859221346313107414474846252752604992097590133961842848913019073014153010nat
    } else if i == 120 {
        51303361359653464050006771537341226976539604964205923399469614564706008834052nat
    } else if i == 121 {
        51171387502764330562774849667033034283056080450385872897204773223645085369254nat
    } else if i == 122 {
        7237091576916241695047293084522141336268656276386088021954481852199921973216nat
    } else if i == 123 {
        25026554458962841467968682601680143746537618788336396538569095145280445662154nat
    } else if i == 124 {
        16003513886762983460717836271035484656754723355114772159990269505739759600774nat
    } else if i == 125 {
        20742179979178809796122395691368538694837598010689782796398715701486525085958nat
    } else if i == 126 {
        44785832974715571208383539748048195425158621451201620091409304675643540484444nat
    } else if i == 127 {
        40997683756979855969631370242290487603852436449608298499325558394715696204831nat
    } else if i == 128 {
        24039577999618876159836452559464600377553684696598310542830185648570694947325nat
    } else if i == 129 {
        214991500380221402745874275507138825943309188151683861156767017258335759518nat
    } else if i == 130 {
        37648944229324812379904445632193391903358473357814505256571234492472677352375nat
    } else if i == 131 {
        33262001091080721927187326829375441597312853742311915461357184164050334176171nat
    } else if i == 132 {
        12889759088432190033171086881844675377815686311282488955569491035800531227592nat
    } else if i == 133 {
        38889970121432469903433846063190552781925277874128916432889442865031400486457nat
    } else if i == 134 {
        9686759546395317438502700818478291413888291261781927399197594299119600593872nat
    } else if i == 135 {
        25228839869827315437841994432860023863461613471517457235105091951188556007171nat
    } else if i == 136 {
        29251067411858749210993269168637503659802522399342640488863629751155422442084nat
    } else if i == 137 {
        40912660681512278236165911366927220401330409827994264103091984300131586078341nat
    } else if i == 138 {
        12796501909444494709088656380507035418412240267936921974592450125220369752821nat
    } else if i == 139 {
        41489997591227135571666436387925119767986380278590920811343183082128452793080nat
    } else if i == 140 {
        21497862265009693334292006570547451455021214638930393134366176167326805799325nat
    } else if i == 141 {
        42759488993366187559528022270353477068325476435317366129099617149236057994173nat
    } else if i == 142 {
        51812786435352958751631482409057671996557140765865434087196139886155873550638nat
    } else if i == 143 {
        49668984917578993057336571483567900930503120626539459296975328351727319861276nat
    } else if i == 144 {
        16647828498038646540925328826301561929374469486623027976723819473821480409681nat
    } else if i == 145 {
        48148303340548214354795067112758174231010308760482898449349672592745234924387nat
    } else if i == 146 {
        40514099213939369482769058963482609316155051560990264349668700968914554718236nat
    } else if i == 147 {
        36567947302783543506732234132138195442155777559454242003814702099955749246290nat
    } else if i == 148 {
        22396816925035795192842094319757131771178499933587237012855640944068186589937nat
    } else if i == 149 {
        47761479716265566311036142819261705369735044145214592608213591050556455450430nat
    } else if i == 150 {
        13277094590686127307617107451297268367321013828763858520220510028318248040673nat
    } else if i == 151 {
        6273610774394348396010704017556554992266752629801490457323912355626787108751nat
    } else if i == 152 {
        47394279615623798760617602748864924711531390489909756029248999925570450315302nat
    } else if i == 153 {
        27952252793623580780344613559829677253211432925530630621608481053048520434744nat
    } else if i == 154 {
        1683222943011658234228486862639342402730538635204883039431226239924268835592nat
    } else {
        6849709550515639669397513895396396226183305237153796793058311861850242817732nat
    }
}

/// Block 5 of the Poseidon round-constant table: documented decimal
/// values 156 to 194.
pub open spec fn pose_c_e(i: int) -> nat {
    if i == 156 {
        51524350017816629912679960748295545024593637560633508281874724597080573807830nat
    } else if i == 157 {
        26590614177194547630006347843068513496427790322854759433492355517360208924714nat
    } else if i == 158 {
        31548830001396651725711310298465958490865636855427227043617585502978053092924nat
    } else if i == 159 {
        14291568473806392803367440164088272381690062239638560607879858528716058147676nat
    } else if i == 160 {
        21146452903160991922099734199583866923318964586815062550024895407430164358523nat
    } else if i == 161 {
        22961005724583382013438450487662047962072123198815308647967555251332825175693nat
    } else if i == 162 {
        4752908842318626074338926279870993084957055641402767877988223199262408017438nat
    } else if i == 163 {
        41544523600430331260332604149473035199994864893327747257504064038791086157408nat
    } else if i == 164 {
        17323878296591859990733132832893641096022161936583121997952997880406237212813nat
    } else if i == 165 {
        18014582744613086697405046476881081314871698927785490238333612330034405321202nat
    } else if i == 166 {
        45325447140824171211209633262297712878556500592023247082629492785769121758434nat
    } else if i == 167 {
        6192753434333002929210820794040779560623421075700800400752599138519650269040nat
    } else if i == 168 {
        12937001546279985738495952624875312380127801527837660882855310431015537184413nat
    } else if i == 169 {
        45991618799696924909840068913271150748052998998510820293768267349781597832497nat
    } else if i == 170 {
        37441188106719457933929221474454571110916912448355945524409576665808556247872nat
    } else if i == 171 {
        49875923679586708113406579244909793162425404239213510953269412337363307325571nat
    } else if i == 172 {
        15051465698071304017966667797323113094420513709580063806706433232853573089040nat
    } else if i == 173 {
        10338905189138871748742400929101717755982978259187828256039071250817040249017nat
    } else if i == 174 {
        40261933448177008341539991920645739011692467645144896682394869561245899318641nat
    } else if i == 175 {
        38346498339252184147870281431364733631809877281747451440216067081256241485418nat
    } else if i == 176 {
        6209216396715641040468803949857167055175110420218294975303260728579180870134nat
    } else if i == 177 {
        25923422290512595808420551575642237631007497169886590851128840338102194873726nat
    } else if i == 178 {
        11953618934086915505672657493115697182858104796786340137294500949047339928290nat
    } else if i == 179 {
        48506710952023206646326838201389789459004051035511888474426942257560405427104nat
    } else if i == 180 {
        49584811575438811511092715559885015474424100729555178730940640525393341823572nat
    } else if i == 181 {
        25222528947373923151054372702664425173210441980263130389325557963853429239320nat
    } else if i == 182 {
        36212452941316997504575803214309342413443151488267891949906815090453746563323nat
    } else if i == 183 {
        19548334171603533109137618032918088438321356008712800140019849908969476369140nat
    } else if i == 184 {
        13369714008256347363334888026585995433724817786797528430136744458743428376798nat
    } else if i == 185 {
        23153174875441426069922538845839074574095797738892298576581895020444392853731nat
    } else if i == 186 {
        19950632315767750645780485212179021291844439659606854957365124208057044477001nat
    } else if i == 187 {
        4990085320684307481424051057758258811192003289472239932032551966513564492664nat
    } else if i == 188 {
        29810043862384409261569733347989054089853302964778668946432779952952625186706nat
    } else if i == 189 {
        10937492441648375945337911315608624372433158520395209903090712138844575570844nat
    } else if i == 190 {
        24981706249730491732129119057314109520549309496394969130105355950186024721860nat
    } else if i == 191 {
        10498082524469215029826843019306692952360905490979497919767209022386939911216nat
    } else if i == 192 {
        15682375221169428458922809183562392617423770660027773228464622792081026981791nat
    } else if i == 193 {
        41914385147673242564111169184735297479310144571630342213035237856939024640011nat
    } else {
        39667818743665708661866396692813914317148400284941420155363896112617842800421nat
    }
}

/// The `i`-th Poseidon round constant: the 195 documented decimal values,
/// three per round, in consumption order, in five blocks of 39.
pub open spec fn std_pose_c(i: int) -> nat {
    if i < 39 {
        pose_c_a(i)
    } else if i < 78 {
        pose_c_b(i)
    } else if i < 117 {
        pose_c_c(i)
    } else if i < 156 {
        pose_c_d(i)
    } else {
        pose_c_e(i)
    }
}

/// The Poseidon round-constant table as a sequence.
pub open spec fn std_pose_cs() -> Seq<nat> {
    Seq::new(195, |i: int| std_pose_c(i))
}

/// The `i`-th Rescue-Prime round constant: the 24 documented decimal values,
/// three per injection point, two injection points per round, in
/// consumption order.
pub open spec fn std_rescue_c(i: int) -> nat {
    if i == 0 {
        41550313466542986686381187475386224890619213663365144133966235154580769474314nat
    } else if i == 1 {
        46235636976106534322257334778843335414724041131494488188341064387240106153243nat
    } else if i == 2 {
        43314474564749977258448857367299700960955407362432105710780024592683745356396nat
    } else if i == 3 {
        6610248367712747417489710323792672924291015441980260828503764505802544302133nat
    } else if i == 4 {
        48902835969048727949157312845529356609975996102724786706493615060533278826882nat
    } else if i == 5 {
        48020430798213331714265136872960067665339968785807617895912965210318833506033nat
    } else if i == 6 {
        46852092121783048129054015209292285454336628007814272371588179933784556551027nat
    } else if i == 7 {
        18285529991400289460558442082097384209909111358722088777170630517004445042401nat
    } else if i == 8 {
        39715240121717033403976206014745165566831987912684275661267961794798544871325nat
    } else if i == 9 {
        39129494641659579693129270149028838267319001600817760345550310657253464282481nat
    } else if i == 10 {
        16498478026547012198311182730134271651465725575734990928064879994773584955147nat
    } else if i == 11 {
        15538063473797736748725276996847281947218186074842698727649618962576399148406nat
    } else if i == 12 {
        12101073411609416127490814861966272020523587207284114445457770741397044122169nat
    } else if i == 13 {
        41191457238696909629534734120094776042526534898929749767454246268859687595206nat
    } else if i == 14 {
        14461612708761797000547489494258040283490469843669982750248191854462915994269nat
    } else if i == 15 {
        21457542915987289663022414331227578968074137299214232740648201393058262727787nat
    } else if i == 16 {
        29910968875453454114258285197546306058264337380169261403677155868116380953177nat
    } else if i == 17 {
        1898093979887951345662468894551151764048081657277492505601547831464044030732nat
    } else if i == 18 {
        48489871713406609021659256694551631688695628741735467423625834725439773239420nat
    } else if i == 19 {
        15812043658450185541651447416198363552300888092238882774860191251166424574103nat
    } else if i == 20 {
        25192733271269000031278313438764703304293505356764019300933833584278095057211nat
    } else if i == 21 {
        51449973959999043781013692277642864865788635636442612709446611274677398875715nat
    } else if i == 22 {
        7335113001153546988973758758642349543575276014251270978519899059245031076651nat
    } else {
        38071662158091447967518913580232801247205163003871086365540004964717937594515nat
    }
}

/// The Rescue-Prime round-constant table as a sequence.
pub open spec fn std_rescue_cs() -> Seq<nat> {
    Seq::new(24, |i: int| std_rescue_c(i))
}

/// The documented inverse of the Rescue-Prime S-box exponent 5 modulo the
/// order `p - 1` of the field's multiplicative group.
pub open spec fn std_alpha_inv() -> nat {
    20974350070050476191779096203274386335076221000211055129041463479975432473805nat
}

/// MDS literals 0 to 3, each proved equal to its documented value.
#[verifier::spinoff_prover]
#[verifier::rlimit(100)]
fn mds_lit_0(i: usize) -> (s: &'static str)
    requires
        0 <= i < 4,
    ensures
        s@.len() >= 1,
        digits_pfx(s@, s@.len() as int),
        dec_val_chars(s@, s@.len() as int) == std_mds_c(i as int),
        std_mds_c(i as int) < p_val(),
{
    proof {
        reveal_with_fuel(digits_pfx, 80);
        reveal_with_fuel(dec_val_chars, 80);
    }
    if i == 0 {
        let s = "27854988750630959170337239780597144027224715023811960992659706878268355039181";
        proof {
            reveal_strlit("27854988750630959170337239780597144027224715023811960992659706878268355039181");
            assert(digits_pfx(s@, 77) && dec_val_chars(s@, 77) == std_mds_c(0));
        }
        s
    } else if i == 1 {
        let s = "25146695260744508059100624982461970690166157722474767565243652164077487269055";
        proof {
            reveal_strlit("25146695260744508059100624982461970690166157722474767565243652164077487269055");
            assert(digits_pfx(s@, 77) && dec_val_chars(s@, 77) == std_mds_c(1));
        }
        s
    } else if i == 2 {
        let s = "20045359041216123667749848881863965260443684681509271093016182932435520519586";
        proof {
            reveal_strlit("20045359041216123667749848881863965260443684681509271093016182932435520519586");
            assert(digits_pfx(s@, 77) && dec_val_chars(s@, 77) == std_mds_c(2));
        }
        s
    } else {
        let s = "14489116502293865465195620705098702569149962166993518933952339786917836503875";
        proof {
            reveal_strlit("14489116502293865465195620705098702569149962166993518933952339786917836503875");
            assert(digits_pfx(s@, 77) && dec_val_chars(s@, 77) == std_mds_c(3));
        }
        s
    }
}

/// MDS literals 4 to 7, each proved equal to its documented value.
#[verifier::spinoff_prover]
#[verifier::rlimit(100)]
fn mds_lit_1(i: usize) -> (s: &'static str)
    requires
        4 <= i < 8,
    ensures
        s@.len() >= 1,
        digits_pfx(s@, s@.len() as int),
        dec_val_chars(s@, s@.len() as int) == std_mds_c(i as int),
        std_mds_c(i as int) < p_val(),
{
    proof {
        reveal_with_fuel(digits_pfx, 80);
        reveal_with_fuel(dec_val_chars, 80);
    }
    if i == 4 {
        let s = "13125423966940654332711887575940116829944663267413330181877013057693186361539";
        proof {
            reveal_strlit("13125423966940654332711887575940116829944663267413330181877013057693186361539");
            assert(digits_pfx(s@, 77) && dec_val_chars(s@, 77) == std_mds_c(4));
        }
        s
    } else if i == 5 {
        let s = "37781904496949962127477230973432217892379931214289750852498713884075794707207";
        proof {
            reveal_strlit("37781904496949962127477230973432217892379931214289750852498713884075794707207");
            assert(digits_pfx(s@, 77) && dec_val_chars(s@, 77) == std_mds_c(5));
        }
        s
    } else if i == 6 {
        let s = "13626913895298938265545264952401615832299228269982032679076937571883280705196";
        proof {
            reveal_strlit("13626913895298938265545264952401615832299228269982032679076937571883280705196");
            assert(digits_pfx(s@, 77) && dec_val_chars(s@, 77) == std_mds_c(6));
        }
        s
    } else {
        let s = "1961062001717124873779753860369853658060849384038305407377314938662537282272";
        proof {
            reveal_strlit("1961062001717124873779753860369853658060849384038305407377314938662537282272");
            assert(digits_pfx(s@, 76) && dec_val_chars(s@, 76) == std_mds_c(7));
        }
        s
    }
}

/// MDS literals 8 to 8, each proved equal to its documented value.
#[verifier::spinoff_prover]
#[verifier::rlimit(100)]
fn mds_lit_2(i: usize) -> (s: &'static str)
    requires
        8 <= i < 9,
    ensures
        s@.len() >= 1,
        digits_pfx(s@, s@.len() as int),
        dec_val_chars(s@, s@.len() as int) == std_mds_c(i as int),
        std_mds_c(i as int) < p_val(),
{
    proof {
        reveal_with_fuel(digits_pfx, 80);
        reveal_with_fuel(dec_val_chars, 80);
    }
    {
        let s = "39178371364179396693874733819376491076633720395229958100530484864695867731796";
        proof {
            reveal_strlit("39178371364179396693874733819376491076633720395229958100530484864695867731796");
            assert(digits_pfx(s@, 77) && dec_val_chars(s@, 77) == std_mds_c(8));
        }
        s
    }
}

/// The `i`-th MDS literal: a canonical decimal numeral whose value is the
/// documented matrix entry.
fn mds_lit(i: usize) -> (s: &'static str)
    requires
        i < 9,
    ensures
        s@.len() >= 1,
        digits_pfx(s@, s@.len() as int),
        dec_val_chars(s@, s@.len() as int) == std_mds_c(i as int),
        std_mds_c(i as int) < p_val(),
{
    if i < 4 {
        mds_lit_0(i)
    } else if i < 8 {
        mds_lit_1(i)
    } else {
        mds_lit_2(i)
    }
}

/// Poseidon constant literals 0 to 3, each proved equal to its
/// documented value.
#[verifier::spinoff_prover]
#[verifier::rlimit(100)]
fn pose_lit_00(i: usize) -> (s: &'static str)
    requires
        0 <= i < 4,
    ensures
        s@.len() >= 1,
        digits_pfx(s@, s@.len() as int),
        dec_val_chars(s@, s@.len() as int) == std_pose_c(i as int),
        std_pose_c(i as int) < p_val(),
{
    proof {
        reveal_with_fuel(digits_pfx, 80);
        reveal_with_fuel(dec_val_chars, 80);
    }
    if i == 0 {
        let s = "48991097081732275468845314168021420565497297775988823234113406403095118809216";
        proof {
            reveal_strlit("48991097081732275468845314168021420565497297775988823234113406403095118809216");
            assert(digits_pfx(s@, 77) && dec_val_chars(s@, 77) == std_pose_c(0));
        }
        s
    } else if i == 1 {
        let s = "38385660029618165285848698857635215143135976511856402182142757680787979296154";
        proof {
            reveal_strlit("38385660029618165285848698857635215143135976511856402182142757680787979296154");
            assert(digits_pfx(s@, 77) && dec_val_chars(s@, 77) == std_pose_c(1));
        }
        s
    } else if i == 2 {
        let s = "45664917788634056160947231182803089169570746657219074370482409200042991921246";
        proof {
            reveal_strlit("45664917788634056160947231182803089169570746657219074370482409200042991921246");
            assert(digits_pfx(s@, 77) && dec_val_chars(s@, 77) == std_pose_c(2));
        }
        s
    } else {
        let s = "46611823467219910333349433978991031443945697128435279755908258896090196676828";
        proof {
            reveal_strlit("46611823467219910333349433978991031443945697128435279755908258896090196676828");
            assert(digits_pfx(s@, 77) && dec_val_chars(s@, 77) == std_pose_c(3));
        }
        s
    }
}

/// Poseidon constant literals 4 to 7, each proved equal to its
/// documented value.
#[verifier::spinoff_prover]
#[verifier::rlimit(100)]
fn pose_lit_01(i: usize) -> (s: &'static str)
    requires
        4 <= i < 8,
    ensures
        s@.len() >= 1,
        digits_pfx(s@, s@.len() as int),
        dec_val_chars(s@, s@.len() as int) == std_pose_c(i as int),
        std_pose_c(i as int) < p_val(),
{
    proof {
        reveal_with_fuel(digits_pfx, 80);
        reveal_with_fuel(dec_val_chars, 80);
    }
    if i == 4 {
        let s = "21239555800391983336673016232252577145979304597102502292785557024177155115319";
        proof {
            reveal_strlit("21239555800391983336673016232252577145979304597102502292785557024177155115319");
            assert(digits_pfx(s@, 77) && dec_val_chars(s@, 77) == std_pose_c(4));
        }
        s
    } else if i == 5 {
        let s = "5444549814002252718699361548642546874417220826495496552290417094191494299797";
        proof {
            reveal_strlit("5444549814002252718699361548642546874417220826495496552290417094191494299797");
            assert(digits_pfx(s@, 76) && dec_val_chars(s@, 76) == std_pose_c(5));
        }
        s
    } else if i == 6 {
        let s = "6120941817780228594851185625662354154126315032538247033968198498911791651970";
        proof {
            reveal_strlit("6120941817780228594851185625662354154126315032538247033968198498911791651970");
            assert(digits_pfx(s@, 76) && dec_val_chars(s@, 76) == std_pose_c(6));
        }
        s
    } else {
        let s = "23268934541565483112488314239282439244757346303484537549209002605218913236536";
        proof {
            reveal_strlit("23268934541565483112488314239282439244757346303484537549209002605218913236536");
            assert(digits_pfx(s@, 77) && dec_val_chars(s@, 77) == std_pose_c(7));
        }
        s
    }
}

/// Poseidon constant literals 8 to 11, each proved equal to its
/// documented value.
#[verifier::spinoff_prover]
#[verifier::rlimit(100)]
fn pose_lit_02(i: usize) -> (s: &'static str)
    requires
        8 <= i < 12,
    ensures
        s@.len() >= 1,
        digits_pfx(s@, s@.len() as int),
        dec_val_chars(s@, s@.len() as int) == std_pose_c(i as int),
        std_pose_c(i as int) < p_val(),
{
    proof {
        reveal_with_fuel(digits_pfx, 80);
        reveal_with_fuel(dec_val_chars, 80);
    }
    if i == 8 {
        let s = "34778900561716047730386110499058136122597669775051061603711724688203374984731";
        proof {
            reveal_strlit("34778900561716047730386110499058136122597669775051061603711724688203374984731");
            assert(digits_pfx(s@, 77) && dec_val_chars(s@, 77) == std_pose_c(8));
        }
        s
    } else if i == 9 {
        let s = "11866412958831620887953860204795878894545618212709331023611019011793447488176";
        proof {
            reveal_strlit("11866412958831620887953860204795878894545618212709331023611019011793447488176");
            assert(digits_pfx(s@, 77) && dec_val_chars(s@, 77) == std_pose_c(9));
        }
        s
    } else if i == 10 {
        let s = "1292810553955081089139103033821163176614817808018762694232693357405135340213";
        proof {
            reveal_strlit("1292810553955081089139103033821163176614817808018762694232693357405135340213");
            assert(digits_pfx(s@, 76) && dec_val_chars(s@, 76) == std_pose_c(10));
        }
        s
    } else {
        let s = "29829440149074940820671559824872937980763748927491238614065138142835318453671";
        proof {
            reveal_strlit("29829440149074940820671559824872937980763748927491238614065138142835318453671");
            assert(digits_pfx(s@, 77) && dec_val_chars(s@, 77) == std_pose_c(11));
        }
        s
    }
}

/// Poseidon constant literals 12 to 15, each proved equal to its
/// documented value.
#[verifier::spinoff_prover]
#[verifier::rlimit(100)]
fn pose_lit_03(i: usize) -> (s: &'static str)
    requires
        12 <= i < 16,
    ensures
        s@.len() >= 1,
        digits_pfx(s@, s@.len() as int),
        dec_val_chars(s@, s@.len() as int) == std_pose_c(i as int),
        std_pose_c(i as int) < p_val(),
{
    proof {
        reveal_with_fuel(digits_pfx, 80);
        reveal_with_fuel(dec_val_chars, 80);
    }
    if i == 12 {
        let s = "43007325278312980663982452106946226844964622384017700838855297379677047113384";
        proof {
            reveal_strlit("43007325278312980663982452106946226844964622384017700838855297379677047113384");
            assert(digits_pfx(s@, 77) && dec_val_chars(s@, 77) == std_pose_c(12));
        }
        s
    } else if i == 13 {
        let s = "6207852559847946300667836829798951848361581084433525098597857899536657157132";
        proof {
            reveal_strlit("6207852559847946300667836829798951848361581084433525098597857899536657157132");
            assert(digits_pfx(s@, 76) && dec_val_chars(s@, 76) == std_pose_c(13));
        }
        s
    } else if i == 14 {
        let s = "51263844854419207560514475863120683772532929850629546992690510884221364990253";
        proof {
            reveal_strlit("51263844854419207560514475863120683772532929850629546992690510884221364990253");
            assert(digits_pfx(s@, 77) && dec_val_chars(s@, 77) == std_pose_c(14));
        }
        s
    } else {
        let s = "47537207485065031976374469967696134772574834313568026823983918780308518394040";
        proof {
            reveal_strlit("47537207485065031976374469967696134772574834313568026823983918780308518394040");
            assert(digits_pfx(s@, 77) && dec_val_chars(s@, 77) == std_pose_c(15));
        }
        s
    }
}

/// Poseidon constant literals 16 to 19, each proved equal to its
/// documented value.
#[verifier::spinoff_prover]
#[verifier::rlimit(100)]
fn pose_lit_04(i: usize) -> (s: &'static str)
    requires
        16 <= i < 20,
    ensures
        s@.len() >= 1,
        digits_pfx(s@, s@.len() as int),
        dec_val_chars(s@, s@.len() as int) == std_pose_c(i as int),
        std_pose_c(i as int) < p_val(),
{
    proof {
        reveal_with_fuel(digits_pfx, 80);
        reveal_with_fuel(dec_val_chars, 80);
    }
    if i == 16 {
        let s = "2221931791899303960239149702171682649773262449196140787838362753706579104592";
        proof {
            reveal_strlit("2221931791899303960239149702171682649773262449196140787838362753706579104592");
            assert(digits_pfx(s@, 76) && dec_val_chars(s@, 76) == std_pose_c(16));
        }
        s
    } else if i == 17 {
        let s = "39456839086017037141295863080128693714705835125922448198802062180577619415688";
        proof {
            reveal_strlit("39456839086017037141295863080128693714705835125922448198802062180577619415688");
            assert(digits_pfx(s@, 77) && dec_val_chars(s@, 77) == std_pose_c(17));
        }
        s
    } else if i == 18 {
        let s = "7307684192235537965831376311417883513796535701244096178785218530839409056523";
        proof {
            reveal_strlit("7307684192235537965831376311417883513796535701244096178785218530839409056523");
            assert(digits_pfx(s@, 76) && dec_val_chars(s@, 76) == std_pose_c(18));
        }
        s
    } else {
        let s = "40363790847223872255995860144037894400158879326818322790255787884037990480527";
        proof {
            reveal_strlit("40363790847223872255995860144037894400158879326818322790255787884037990480527");
            assert(digits_pfx(s@, 77) && dec_val_chars(s@, 77) == std_pose_c(19));
        }
        s
    }
}

/// Poseidon constant literals 20 to 23, each proved equal to its
/// documented value.
#[verifier::spinoff_prover]
#[verifier::rlimit(100)]
fn pose_lit_05(i: usize) -> (s: &'static str)
    requires
        20 <= i < 24,
    ensures
        s@.len() >= 1,
        digits_pfx(s@, s@.len() as int),
        dec_val_chars(s@, s@.len() as int) == std_pose_c(i as int),
        std_pose_c(i as int) < p_val(),
{
    proof {
        reveal_with_fuel(digits_pfx, 80);
        reveal_with_fuel(dec_val_chars, 80);
    }
    if i == 20 {
        let s = "46370977865329511267956842930057959446221524060145738210680245530954549945015";
        proof {
            reveal_strlit("46370977865329511267956842930057959446221524060145738210680245530954549945015");
            assert(digits_pfx(s@, 77) && dec_val_chars(s@, 77) == std_pose_c(20));
        }
        s
    } else if i == 21 {
        let s = "31963375456062604704511762940421329756212766442452555529101241339674782334039";
        proof {
            reveal_strlit("31963375456062604704511762940421329756212766442452555529101241339674782334039");
            assert(digits_pfx(s@, 77) && dec_val_chars(s@, 77) == std_pose_c(21));
        }
        s
    } else if i == 22 {
        let s = "14931035994999669353073307088521670981122374648927581516990615825314462827897";
        proof {
            reveal_strlit("14931035994999669353073307088521670981122374648927581516990615825314462827897");
            assert(digits_pfx(s@, 77) && dec_val_chars(s@, 77) == std_pose_c(22));
        }
        s
    } else {
        let s = "9146050314741225622437907700594105481623623087635695897868792721147700541623";
        proof {
            reveal_strlit("9146050314741225622437907700594105481623623087635695897868792721147700541623");
            assert(digits_pfx(s@, 76) && dec_val_chars(s@, 76) == std_pose_c(23));
        }
        s
    }
}

/// Poseidon constant literals 24 to 27, each proved equal to its
/// documented value.
#[verifier::spinoff_prover]
#[verifier::rlimit(100)]
fn pose_lit_06(i: usize) -> (s: &'static str)
    requires
        24 <= i < 28,
    ensures
        s@.len() >= 1,
        digits_pfx(s@, s@.len() as int),
        dec_val_chars(s@, s@.len() as int) == std_pose_c(i as int),
        std_pose_c(i as int) < p_val(),
{
    proof {
        reveal_with_fuel(digits_pfx, 80);
        reveal_with_fuel(dec_val_chars, 80);
    }
    if i == 24 {
        let s = "43028866523328004770172322384235815492694573248368601737155468843525625413279";
        proof {
            reveal_strlit("43028866523328004770172322384235815492694573248368601737155468843525625413279");
            assert(digits_pfx(s@, 77) && dec_val_chars(s@, 77) == std_pose_c(24));
        }
        s
    } else if i == 25 {
        let s = "10642771813466087799681476709295362996886361934733270333728358675267521442184";
        proof {
            reveal_strlit("10642771813466087799681476709295362996886361934733270333728358675267521442184");
            assert(digits_pfx(s@, 77) && dec_val_chars(s@, 77) == std_pose_c(25));
        }
        s
    } else if i == 26 {
        let s = "26204626472182247586446753357603232226235570940686295317661191583409532523578";
        proof {
            reveal_strlit("26204626472182247586446753357603232226235570940686295317661191583409532523578");
            assert(digits_pfx(s@, 77) && dec_val_chars(s@, 77) == std_pose_c(26));
        }
        s
    } else {
        let s = "51764778305842182544341507127328333397682018984536762517144144495830254727692";
        proof {
            reveal_strlit("51764778305842182544341507127328333397682018984536762517144144495830254727692");
            assert(digits_pfx(s@, 77) && dec_val_chars(s@, 77) == std_pose_c(27));
        }
        s
    }
}

/// Poseidon constant literals 28 to 31, each proved equal to its
/// documented value.
#[verifier::spinoff_prover]
#[verifier::rlimit(100)]
fn pose_lit_07(i: usize) -> (s: &'static str)
    requires
        28 <= i < 32,
    ensures
        s@.len() >= 1,
        digits_pfx(s@, s@.len() as int),
        dec_val_chars(s@, s@.len() as int) == std_pose_c(i as int),
        std_pose_c(i as int) < p_val(),
{
    proof {
        reveal_with_fuel(digits_pfx, 80);
        reveal_with_fuel(dec_val_chars, 80);
    }
    if i == 28 {
        let s = "46323013798997081811959707047808149003166619133464450127989691277775183404349";
        proof {
            reveal_strlit("46323013798997081811959707047808149003166619133464450127989691277775183404349");
            assert(digits_pfx(s@, 77) && dec_val_chars(s@, 77) == std_pose_c(28));
        }
        s
    } else if i == 29 {
        let s = "5482714761779403197336605367697000529513289823583027739458069397684408687717";
        proof {
            reveal_strlit("5482714761779403197336605367697000529513289823583027739458069397684408687717");
            assert(digits_pfx(s@, 76) && dec_val_chars(s@, 76) == std_pose_c(29));
        }
        s
    } else if i == 30 {
        let s = "12801259943830582826718901632357112368256632783422449824889858551937326401170";
        proof {
            reveal_strlit("12801259943830582826718901632357112368256632783422449824889858551937326401170");
            assert(digits_pfx(s@, 77) && dec_val_chars(s@, 77) == std_pose_c(30));
        }
        s
    } else {
        let s = "24705221370028061177410670936487461711735994635988936070623351799675117594850";
        proof {
            reveal_strlit("24705221370028061177410670936487461711735994635988936070623351799675117594850");
            assert(digits_pfx(s@, 77) && dec_val_chars(s@, 77) == std_pose_c(31));
        }
        s
    }
}

/// Poseidon constant literals 32 to 35, each proved equal to its
/// documented value.
#[verifier::spinoff_prover]
#[verifier::rlimit(100)]
fn pose_lit_08(i: usize) -> (s: &'static str)
    requires
        32 <= i < 36,
    ensures
        s@.len() >= 1,
        digits_pfx(s@, s@.len() as int),
        dec_val_chars(s@, s@.len() as int) == std_pose_c(i as int),
        std_pose_c(i as int) < p_val(),
{
    proof {
        reveal_with_fuel(digits_pfx, 80);
        reveal_with_fuel(dec_val_chars, 80);
    }
    if i == 32 {
        let s = "34818354068777339891091714877681898548352650337240481539567373888981659308099";
        proof {
            reveal_strlit("34818354068777339891091714877681898548352650337240481539567373888981659308099");
            assert(digits_pfx(s@, 77) && dec_val_chars(s@, 77) == std_pose_c(32));
        }
        s
    } else if i == 33 {
        let s = "35437981511765462742605234803376772682840664204821301764084738573774616215109";
        proof {
            reveal_strlit("35437981511765462742605234803376772682840664204821301764084738573774616215109");
            assert(digits_pfx(s@, 77) && dec_val_chars(s@, 77) == std_pose_c(33));
        }
        s
    } else if i == 34 {
        let s = "1433523918194521021731556457516832465819757187635645935518277720319249889445";
        proof {
            reveal_strlit("1433523918194521021731556457516832465819757187635645935518277720319249889445");
            assert(digits_pfx(s@, 76) && dec_val_chars(s@, 76) == std_pose_c(34));
        }
        s
    } else {
        let s = "1786444825311968572352002116054188762971225383128313206702203805257523693888";
        proof {
            reveal_strlit("1786444825311968572352002116054188762971225383128313206702203805257523693888");
            assert(digits_pfx(s@, 76) && dec_val_chars(s@, 76) == std_pose_c(35));
        }
        s
    }
}

/// Poseidon constant literals 36 to 39, each proved equal to its
/// documented value.
#[verifier::spinoff_prover]
#[verifier::rlimit(100)]
fn pose_lit_09(i: usize) -> (s: &'static str)
    requires
        36 <= i < 40,
    ensures
        s@.len() >= 1,
        digits_pfx(s@, s@.len() as int),
        dec_val_chars(s@, s@.len() as int) == std_pose_c(i as int),
        std_pose_c(i as int) < p_val(),
{
    proof {
        reveal_with_fuel(digits_pfx, 80);
        reveal_with_fuel(dec_val_chars, 80);
    }
    if i == 36 {
        let s = "22232073076796622550494050910209988454596433174206874696362037700514082492276";
        proof {
            reveal_strlit("22232073076796622550494050910209988454596433174206874696362037700514082492276");
            assert(digits_pfx(s@, 77) && dec_val_chars(s@, 77) == std_pose_c(36));
        }
        s
    } else if i == 37 {
        let s = "24042430109235922611027968831657325520072553641473321784508698720854180658031";
        proof {
            reveal_strlit("24042430109235922611027968831657325520072553641473321784508698720854180658031");
            assert(digits_pfx(s@, 77) && dec_val_chars(s@, 77) == std_pose_c(37));
        }
        s
    } else if i == 38 {
        let s = "45406805567398680921065452923276055166961588153660261520529196040913487916279";
        proof {
            reveal_strlit("45406805567398680921065452923276055166961588153660261520529196040913487916279");
            assert(digits_pfx(s@, 77) && dec_val_chars(s@, 77) == std_pose_c(38));
        }
        s
    } else {
        let s = "35053262861048825411061280559553895536192334830763062477277235807515959383150";
        proof {
            reveal_strlit("35053262861048825411061280559553895536192334830763062477277235807515959383150");
            assert(digits_pfx(s@, 77) && dec_val_chars(s@, 77) == std_pose_c(39));
        }
        s
    }
}

/// Poseidon constant literals 40 to 43, each proved equal to its
/// documented value.
#[verifier::spinoff_prover]
#[verifier::rlimit(100)]
fn pose_lit_10(i: usize) -> (s: &'static str)
    requires
        40 <= i < 44,
    ensures
        s@.len() >= 1,
        digits_pfx(s@, s@.len() as int),
        dec_val_chars(s@, s@.len() as int) == std_pose_c(i as int),
        std_pose_c(i as int) < p_val(),
{
    proof {
        reveal_with_fuel(digits_pfx, 80);
        reveal_with_fuel(dec_val_chars, 80);
    }
    if i == 40 {
        let s = "25108964803188800737437394246442073858261740146181095550988111856238954490309";
        proof {
            reveal_strlit("25108964803188800737437394246442073858261740146181095550988111856238954490309");
            assert(digits_pfx(s@, 77) && dec_val_chars(s@, 77) == std_pose_c(40));
        }
        s
    } else if i == 41 {
        let s = "35192650141137106058577418514209092904214762437910434967540336800650620041958";
        proof {
            reveal_strlit("35192650141137106058577418514209092904214762437910434967540336800650620041958");
            assert(digits_pfx(s@, 77) && dec_val_chars(s@, 77) == std_pose_c(41));
        }
        s
    } else if i == 42 {
        let s = "34220944794619662782589792809938215078980533657269200933482014763836254210880";
        proof {
            reveal_strlit("34220944794619662782589792809938215078980533657269200933482014763836254210880");
            assert(digits_pfx(s@, 77) && dec_val_chars(s@, 77) == std_pose_c(42));
        }
        s
    } else {
        let s = "39884393792242132075258602070541114557272278571033974158755307717930033808078";
        proof {
            reveal_strlit("39884393792242132075258602070541114557272278571033974158755307717930033808078");
            assert(digits_pfx(s@, 77) && dec_val_chars(s@, 77) == std_pose_c(43));
        }
        s
    }
}

/// Poseidon constant literals 44 to 47, each proved equal to its
/// documented value.
#[verifier::spinoff_prover]
#[verifier::rlimit(100)]
fn pose_lit_11(i: usize) -> (s: &'static str)
    requires
        44 <= i < 48,
    ensures
        s@.len() >= 1,
        digits_pfx(s@, s@.len() as int),
        dec_val_chars(s@, s@.len() as int) == std_pose_c(i as int),
        std_pose_c(i as int) < p_val(),
{
    proof {
        reveal_with_fuel(digits_pfx, 80);
        reveal_with_fuel(dec_val_chars, 80);
    }
    if i == 44 {
        let s = "6528627567246138898338135471584665860403024864125846353758054588554049365178";
        proof {
            reveal_strlit("6528627567246138898338135471584665860403024864125846353758054588554049365178");
            assert(digits_pfx(s@, 76) && dec_val_chars(s@, 76) == std_pose_c(44));
        }
        s
    } else if i == 45 {
        let s = "26135348890537017135058266369936506677345001674530050056494732502158573534651";
        proof {
            reveal_strlit("26135348890537017135058266369936506677345001674530050056494732502158573534651");
            assert(digits_pfx(s@, 77) && dec_val_chars(s@, 77) == std_pose_c(45));
        }
        s
    } else if i == 46 {
        let s = "45940975099728729872716617510434185869788979733816569378448209603957649084497";
        proof {
            reveal_strlit("45940975099728729872716617510434185869788979733816569378448209603957649084497");
            assert(digits_pfx(s@, 77) && dec_val_chars(s@, 77) == std_pose_c(46));
        }
        s
    } else {
        let s = "15421094974171181812057105309783852016087843260648209913425190920580878315912";
        proof {
            reveal_strlit("15421094974171181812057105309783852016087843260648209913425190920580878315912");
            assert(digits_pfx(s@, 77) && dec_val_chars(s@, 77) == std_pose_c(47));
        }
        s
    }
}

/// Poseidon constant literals 48 to 51, each proved equal to its
/// documented value.
#[verifier::spinoff_prover]
#[verifier::rlimit(100)]
fn pose_lit_12(i: usize) -> (s: &'static str)
    requires
        48 <= i < 52,
    ensures
        s@.len() >= 1,
        digits_pfx(s@, s@.len() as int),
        dec_val_chars(s@, s@.len() as int) == std_pose_c(i as int),
        std_pose_c(i as int) < p_val(),
{
    proof {
        reveal_with_fuel(digits_pfx, 80);
        reveal_with_fuel(dec_val_chars, 80);
    }
    if i == 48 {
        let s = "17821536801502538623431403481143359660601434134694528982404802873816360858943";
        proof {
            reveal_strlit("17821536801502538623431403481143359660601434134694528982404802873816360858943");
            assert(digits_pfx(s@, 77) && dec_val_chars(s@, 77) == std_pose_c(48));
        }
        s
    } else if i == 49 {
        let s = "8010729838943058740614807905113741378835761166137481371357965047712306801123";
        proof {
            reveal_strlit("8010729838943058740614807905113741378835761166137481371357965047712306801123");
            assert(digits_pfx(s@, 76) && dec_val_chars(s@, 76) == std_pose_c(49));
        }
        s
    } else if i == 50 {
        let s = "18699215163509883263304393673283276029620709331747651039747044003384506899917";
        proof {
            reveal_strlit("18699215163509883263304393673283276029620709331747651039747044003384506899917");
            assert(digits_pfx(s@, 77) && dec_val_chars(s@, 77) == std_pose_c(50));
        }
        s
    } else {
        let s = "37045787943638220002917633921716309877792707850558591835874081145770158399128";
        proof {
            reveal_strlit("37045787943638220002917633921716309877792707850558591835874081145770158399128");
            assert(digits_pfx(s@, 77) && dec_val_chars(s@, 77) == std_pose_c(51));
        }
        s
    }
}

/// Poseidon constant literals 52 to 55, each proved equal to its
/// documented value.
#[verifier::spinoff_prover]
#[verifier::rlimit(100)]
fn pose_lit_13(i: usize) -> (s: &'static str)
    requires
        52 <= i < 56,
    ensures
        s@.len() >= 1,
        digits_pfx(s@, s@.len() as int),
        dec_val_chars(s@, s@.len() as int) == std_pose_c(i as int),
        std_pose_c(i as int) < p_val(),
{
    proof {
        reveal_with_fuel(digits_pfx, 80);
        reveal_with_fuel(dec_val_chars, 80);
    }
    if i == 52 {
        let s = "21575637935417645110089037900895429146838845113516284564671508366546944971174";
        proof {
            reveal_strlit("21575637935417645110089037900895429146838845113516284564671508366546944971174");
            assert(digits_pfx(s@, 77) && dec_val_chars(s@, 77) == std_pose_c(52));
        }
        s
    } else if i == 53 {
        let s = "1788789771738709712587591109966362080868778924904243569200231458308784197447";
        proof {
            reveal_strlit("1788789771738709712587591109966362080868778924904243569200231458308784197447");
            assert(digits_pfx(s@, 76) && dec_val_chars(s@, 76) == std_pose_c(53));
        }
        s
    } else if i == 54 {
        let s = "31893695366599021197812621371715665903315747385247436549810717167321695484766";
        proof {
            reveal_strlit("31893695366599021197812621371715665903315747385247436549810717167321695484766");
            assert(digits_pfx(s@, 77) && dec_val_chars(s@, 77) == std_pose_c(54));
        }
        s
    } else {
        let s = "51153400179598348220410722401172031495931771158209082356586940118519763307990";
        proof {
            reveal_strlit("51153400179598348220410722401172031495931771158209082356586940118519763307990");
            assert(digits_pfx(s@, 77) && dec_val_chars(s@, 77) == std_pose_c(55));
        }
        s
    }
}

/// Poseidon constant literals 56 to 59, each proved equal to its
/// documented value.
#[verifier::spinoff_prover]
#[verifier::rlimit(100)]
fn pose_lit_14(i: usize) -> (s: &'static str)
    requires
        56 <= i < 60,
    ensures
        s@.len() >= 1,
        digits_pfx(s@, s@.len() as int),
        dec_val_chars(s@, s@.len() as int) == std_pose_c(i as int),
        std_pose_c(i as int) < p_val(),
{
    proof {
        reveal_with_fuel(digits_pfx, 80);
        reveal_with_fuel(dec_val_chars, 80);
    }
    if i == 56 {
        let s = "27065341612806387486757726552834268222391812301897865130062594135449450311205";
        proof {
            reveal_strlit("27065341612806387486757726552834268222391812301897865130062594135449450311205");
            assert(digits_pfx(s@, 77) && dec_val_chars(s@, 77) == std_pose_c(56));
        }
        s
    } else if i == 57 {
        let s = "21631377794423816098233500204394685009343254816615902551641496756763638503963";
        proof {
            reveal_strlit("21631377794423816098233500204394685009343254816615902551641496756763638503963");
            assert(digits_pfx(s@, 77) && dec_val_chars(s@, 77) == std_pose_c(57));
        }
        s
    } else if i == 58 {
        let s = "48126155452550090941025807356211843589751116110477652511672279566428926247148";
        proof {
            reveal_strlit("48126155452550090941025807356211843589751116110477652511672279566428926247148");
            assert(digits_pfx(s@, 77) && dec_val_chars(s@, 77) == std_pose_c(58));
        }
        s
    } else {
        let s = "41945332685105951593851845839403181725987901258063429769257339995392450728766";
        proof {
            reveal_strlit("41945332685105951593851845839403181725987901258063429769257339995392450728766");
            assert(digits_pfx(s@, 77) && dec_val_chars(s@, 77) == std_pose_c(59));
        }
        s
    }
}

/// Poseidon constant literals 60 to 63, each proved equal to its
/// documented value.
#[verifier::spinoff_prover]
#[verifier::rlimit(100)]
fn pose_lit_15(i: usize) -> (s: &'static str)
    requires
        60 <= i < 64,
    ensures
        s@.len() >= 1,
        digits_pfx(s@, s@.len() as int),
        dec_val_chars(s@, s@.len() as int) == std_pose_c(i as int),
        std_pose_c(i as int) < p_val(),
{
    proof {
        reveal_with_fuel(digits_pfx, 80);
        reveal_with_fuel(dec_val_chars, 80);
    }
    if i == 60 {
        let s = "24296067579767080403247766323431204628341605710487447431323947636125286730412";
        proof {
            reveal_strlit("24296067579767080403247766323431204628341605710487447431323947636125286730412");
            assert(digits_pfx(s@, 77) && dec_val_chars(s@, 77) == std_pose_c(60));
        }
        s
    } else if i == 61 {
        let s = "15881178462681378844988252603563609691162651204658664856493588769950563205407";
        proof {
            reveal_strlit("15881178462681378844988252603563609691162651204658664856493588769950563205407");
            assert(digits_pfx(s@, 77) && dec_val_chars(s@, 77) == std_pose_c(61));
        }
        s
    } else if i == 62 {
        let s = "33027381395215663927148306470841421013404116814305740800948949823021554274098";
        proof {
            reveal_strlit("33027381395215663927148306470841421013404116814305740800948949823021554274098");
            assert(digits_pfx(s@, 77) && dec_val_chars(s@, 77) == std_pose_c(62));
        }
        s
    } else {
        let s = "39278310473084767209787340524936392884387815060990743323143945308386189000820";
        proof {
            reveal_strlit("39278310473084767209787340524936392884387815060990743323143945308386189000820");
            assert(digits_pfx(s@, 77) && dec_val_chars(s@, 77) == std_pose_c(63));
        }
        s
    }
}

/// Poseidon constant literals 64 to 67, each proved equal to its
/// documented value.
#[verifier::spinoff_prover]
#[verifier::rlimit(100)]
fn pose_lit_16(i: usize) -> (s: &'static str)
    requires
        64 <= i < 68,
    ensures
        s@.len() >= 1,
        digits_pfx(s@, s@.len() as int),
        dec_val_chars(s@, s@.len() as int) == std_pose_c(i as int),
        std_pose_c(i as int) < p_val(),
{
    proof {
        reveal_with_fuel(digits_pfx, 80);
        reveal_with_fuel(dec_val_chars, 80);
    }
    if i == 64 {
        let s = "36914830105593239127583246606078015086694578878061417360363710472659792271157";
        proof {
            reveal_strlit("36914830105593239127583246606078015086694578878061417360363710472659792271157");
            assert(digits_pfx(s@, 77) && dec_val_chars(s@, 77) == std_pose_c(64));
        }
        s
    } else if i == 65 {
        let s = "2471481831227881021689006198592503194795082772689986463565415296171852015386";
        proof {
            reveal_strlit("2471481831227881021689006198592503194795082772689986463565415296171852015386");
            assert(digits_pfx(s@, 76) && dec_val_chars(s@, 76) == std_pose_c(65));
        }
        s
    } else if i == 66 {
        let s = "10133170919569185596470854926690039229735632740212998846069400800395437949818";
        proof {
            reveal_strlit("10133170919569185596470854926690039229735632740212998846069400800395437949818");
            assert(digits_pfx(s@, 77) && dec_val_chars(s@, 77) == std_pose_c(66));
        }
        s
    } else {
        let s = "13713875128407368240685505357662717227751490836079655538057610707920043576169";
        proof {
            reveal_strlit("13713875128407368240685505357662717227751490836079655538057610707920043576169");
            assert(digits_pfx(s@, 77) && dec_val_chars(s@, 77) == std_pose_c(67));
        }
        s
    }
}

/// Poseidon constant literals 68 to 71, each proved equal to its
/// documented value.
#[verifier::spinoff_prover]
#[verifier::rlimit(100)]
fn pose_lit_17(i: usize) -> (s: &'static str)
    requires
        68 <= i < 72,
    ensures
        s@.len() >= 1,
        digits_pfx(s@, s@.len() as int),
        dec_val_chars(s@, s@.len() as int) == std_pose_c(i as int),
        std_pose_c(i as int) < p_val(),
{
    proof {
        reveal_with_fuel(digits_pfx, 80);
        reveal_with_fuel(dec_val_chars, 80);
    }
    if i == 68 {
        let s = "8342666644640774986634432327796294683569398370446186977217700283927741456745";
        proof {
            reveal_strlit("8342666644640774986634432327796294683569398370446186977217700283927741456745");
            assert(digits_pfx(s@, 76) && dec_val_chars(s@, 76) == std_pose_c(68));
        }
        s
    } else if i == 69 {
        let s = "46601389125814748868096111624907238097032545985765609175268428943258314495300";
        proof {
            reveal_strlit("46601389125814748868096111624907238097032545985765609175268428943258314495300");
            assert(digits_pfx(s@, 77) && dec_val_chars(s@, 77) == std_pose_c(69));
        }
        s
    } else if i == 70 {
        let s = "20955390743109511563797223108807741951396100480021156649651505770632943438749";
        proof {
            reveal_strlit("20955390743109511563797223108807741951396100480021156649651505770632943438749");
            assert(digits_pfx(s@, 77) && dec_val_chars(s@, 77) == std_pose_c(70));
        }
        s
    } else {
        let s = "30784566406743698397200754777301033281231860349200935908047757137616877875074";
        proof {
            reveal_strlit("30784566406743698397200754777301033281231860349200935908047757137616877875074");
            assert(digits_pfx(s@, 77) && dec_val_chars(s@, 77) == std_pose_c(71));
        }
        s
    }
}

/// Poseidon constant literals 72 to 75, each proved equal to its
/// documented value.
#[verifier::spinoff_prover]
#[verifier::rlimit(100)]
fn pose_lit_18(i: usize) -> (s: &'static str)
    requires
        72 <= i < 76,
    ensures
        s@.len() >= 1,
        digits_pfx(s@, s@.len() as int),
        dec_val_chars(s@, s@.len() as int) == std_pose_c(i as int),
        std_pose_c(i as int) < p_val(),
{
    proof {
        reveal_with_fuel(digits_pfx, 80);
        reveal_with_fuel(dec_val_chars, 80);
    }
    if i == 72 {
        let s = "48343196439030272896030042717039190414055291776286919553358305329065060244544";
        proof {
            reveal_strlit("48343196439030272896030042717039190414055291776286919553358305329065060244544");
            assert(digits_pfx(s@, 77) && dec_val_chars(s@, 77) == std_pose_c(72));
        }
        s
    } else if i == 73 {
        let s = "5454630884154432785537568532823077194524789618913833351503828005963129645447";
        proof {
            reveal_strlit("5454630884154432785537568532823077194524789618913833351503828005963129645447");
            assert(digits_pfx(s@, 76) && dec_val_chars(s@, 76) == std_pose_c(73));
        }
        s
    } else if i == 74 {
        let s = "5929264687259766357446095238429932392315604113095822327000589827415320983004";
        proof {
            reveal_strlit("5929264687259766357446095238429932392315604113095822327000589827415320983004");
            assert(digits_pfx(s@, 76) && dec_val_chars(s@, 76) == std_pose_c(74));
        }
        s
    } else {
        let s = "22075444908821639097706881947036304396835729534515628434816919715415538390017";
        proof {
            reveal_strlit("22075444908821639097706881947036304396835729534515628434816919715415538390017");
            assert(digits_pfx(s@, 77) && dec_val_chars(s@, 77) == std_pose_c(75));
        }
        s
    }
}

/// Poseidon constant literals 76 to 79, each proved equal to its
/// documented value.
#[verifier::spinoff_prover]
#[verifier::rlimit(100)]
fn pose_lit_19(i: usize) -> (s: &'static str)
    requires
        76 <= i < 80,
    ensures
        s@.len() >= 1,
        digits_pfx(s@, s@.len() as int),
        dec_val_chars(s@, s@.len() as int) == std_pose_c(i as int),
        std_pose_c(i as int) < p_val(),
{
    proof {
        reveal_with_fuel(digits_pfx, 80);
        reveal_with_fuel(dec_val_chars, 80);
    }
    if i == 76 {
        let s = "25941058816975140552446994550948593572939163972016393579803457030200129476973";
        proof {
            reveal_strlit("25941058816975140552446994550948593572939163972016393579803457030200129476973");
            assert(digits_pfx(s@, 77) && dec_val_chars(s@, 77) == std_pose_c(76));
        }
        s
    } else if i == 77 {
        let s = "39776348414428957147819346902864822521632016599308432283712625663034427240337";
        proof {
            reveal_strlit("39776348414428957147819346902864822521632016599308432283712625663034427240337");
            assert(digits_pfx(s@, 77) && dec_val_chars(s@, 77) == std_pose_c(77));
        }
        s
    } else if i == 78 {
        let s = "7416720880414633042939600412231360970614004283597614937824398530497243499212";
        proof {
            reveal_strlit("7416720880414633042939600412231360970614004283597614937824398530497243499212");
            assert(digits_pfx(s@, 76) && dec_val_chars(s@, 76) == std_pose_c(78));
        }
        s
    } else {
        let s = "27759512177446113435859126093069895419463054324674208616122176370583357562941";
        proof {
            reveal_strlit("27759512177446113435859126093069895419463054324674208616122176370583357562941");
            assert(digits_pfx(s@, 77) && dec_val_chars(s@, 77) == std_pose_c(79));
        }
        s
    }
}

/// Poseidon constant literals 80 to 83, each proved equal to its
/// documented value.
#[verifier::spinoff_prover]
#[verifier::rlimit(100)]
fn pose_lit_20(i: usize) -> (s: &'static str)
    requires
        80 <= i < 84,
    ensures
        s@.len() >= 1,
        digits_pfx(s@, s@.len() as int),
        dec_val_chars(s@, s@.len() as int) == std_pose_c(i as int),
        std_pose_c(i as int) < p_val(),
{
    proof {
        reveal_with_fuel(digits_pfx, 80);
        reveal_with_fuel(dec_val_chars, 80);
    }
    if i == 80 {
        let s = "2693390255841122228782459820336527344026453452088174693463152401174043438469";
        proof {
            reveal_strlit("2693390255841122228782459820336527344026453452088174693463152401174043438469");
            assert(digits_pfx(s@, 76) && dec_val_chars(s@, 76) == std_pose_c(80));
        }
        s
    } else if i == 81 {
        let s = "50367239350666539482528955684311280608817276753868085587890812549436189586564";
        proof {
            reveal_strlit("50367239350666539482528955684311280608817276753868085587890812549436189586564");
            assert(digits_pfx(s@, 77) && dec_val_chars(s@, 77) == std_pose_c(81));
        }
        s
    } else if i == 82 {
        let s = "16174733649048109460569124327899128868049112853807486992529031028618670502840";
        proof {
            reveal_strlit("16174733649048109460569124327899128868049112853807486992529031028618670502840");
            assert(digits_pfx(s@, 77) && dec_val_chars(s@, 77) == std_pose_c(82));
        }
        s
    } else {
        let s = "25032516686620026063532769674876936116496163673410980298313095252836905833243";
        proof {
            reveal_strlit("25032516686620026063532769674876936116496163673410980298313095252836905833243");
            assert(digits_pfx(s@, 77) && dec_val_chars(s@, 77) == std_pose_c(83));
        }
        s
    }
}

/// Poseidon constant literals 84 to 87, each proved equal to its
/// documented value.
#[verifier::spinoff_prover]
#[verifier::rlimit(100)]
fn pose_lit_21(i: usize) -> (s: &'static str)
    requires
        84 <= i < 88,
    ensures
        s@.len() >= 1,
        digits_pfx(s@, s@.len() as int),
        dec_val_chars(s@, s@.len() as int) == std_pose_c(i as int),
        std_pose_c(i as int) < p_val(),
{
    proof {
        reveal_with_fuel(digits_pfx, 80);
        reveal_with_fuel(dec_val_chars, 80);
    }
    if i == 84 {
        let s = "29144403930621998939944109351403497411548441156029659945515675350299265094466";
        proof {
            reveal_strlit("29144403930621998939944109351403497411548441156029659945515675350299265094466");
            assert(digits_pfx(s@, 77) && dec_val_chars(s@, 77) == std_pose_c(84));
        }
        s
    } else if i == 85 {
        let s = "2003270776024057925128728348175382837282431082428047352264694823915738934597";
        proof {
            reveal_strlit("2003270776024057925128728348175382837282431082428047352264694823915738934597");
            assert(digits_pfx(s@, 76) && dec_val_chars(s@, 76) == std_pose_c(85));
        }
        s
    } else if i == 86 {
        let s = "33363216671247018657387321397537436143187354110057266627888117938607035196831";
        proof {
            reveal_strlit("33363216671247018657387321397537436143187354110057266627888117938607035196831");
            assert(digits_pfx(s@, 77) && dec_val_chars(s@, 77) == std_pose_c(86));
        }
        s
    } else {
        let s = "20203086474546098412356910533884833744816739556295954278635367853784856438617";
        proof {
            reveal_strlit("20203086474546098412356910533884833744816739556295954278635367853784856438617");
            assert(digits_pfx(s@, 77) && dec_val_chars(s@, 77) == std_pose_c(87));
        }
        s
    }
}

/// Poseidon constant literals 88 to 91, each proved equal to its
/// documented value.
#[verifier::spinoff_prover]
#[verifier::rlimit(100)]
fn pose_lit_22(i: usize) -> (s: &'static str)
    requires
        88 <= i < 92,
    ensures
        s@.len() >= 1,
        digits_pfx(s@, s@.len() as int),
        dec_val_chars(s@, s@.len() as int) == std_pose_c(i as int),
        std_pose_c(i as int) < p_val(),
{
    proof {
        reveal_with_fuel(digits_pfx, 80);
        reveal_with_fuel(dec_val_chars, 80);
    }
    if i == 88 {
        let s = "42960220771318412318176969631346524408076008158165832346168142557674200614679";
        proof {
            reveal_strlit("42960220771318412318176969631346524408076008158165832346168142557674200614679");
            assert(digits_pfx(s@, 77) && dec_val_chars(s@, 77) == std_pose_c(88));
        }
        s
    } else if i == 89 {
        let s = "6311431299350400649257553117850994107778654765725553469026713480041524237057";
        proof {
            reveal_strlit("6311431299350400649257553117850994107778654765725553469026713480041524237057");
            assert(digits_pfx(s@, 76) && dec_val_chars(s@, 76) == std_pose_c(89));
        }
        s
    } else if i == 90 {
        let s = "20356164198757608998824195662812920762417225019317083164408248459556033087792";
        proof {
            reveal_strlit("20356164198757608998824195662812920762417225019317083164408248459556033087792");
            assert(digits_pfx(s@, 77) && dec_val_chars(s@, 77) == std_pose_c(90));
        }
        s
    } else {
        let s = "50934696509775059306730966013034554090787668615778167832259926621090584698298";
        proof {
            reveal_strlit("50934696509775059306730966013034554090787668615778167832259926621090584698298");
            assert(digits_pfx(s@, 77) && dec_val_chars(s@, 77) == std_pose_c(91));
        }
        s
    }
}

/// Poseidon constant literals 92 to 95, each proved equal to its
/// documented value.
#[verifier::spinoff_prover]
#[verifier::rlimit(100)]
fn pose_lit_23(i: usize) -> (s: &'static str)
    requires
        92 <= i < 96,
    ensures
        s@.len() >= 1,
        digits_pfx(s@, s@.len() as int),
        dec_val_chars(s@, s@.len() as int) == std_pose_c(i as int),
        std_pose_c(i as int) < p_val(),
{
    proof {
        reveal_with_fuel(digits_pfx, 80);
        reveal_with_fuel(dec_val_chars, 80);
    }
    if i == 92 {
        let s = "12540543785093585171832085015032615168496292565469198040103631290639480719638";
        proof {
            reveal_strlit("12540543785093585171832085015032615168496292565469198040103631290639480719638");
            assert(digits_pfx(s@, 77) && dec_val_chars(s@, 77) == std_pose_c(92));
        }
        s
    } else if i == 93 {
        let s = "7087832377964131545651220267742883342179930832350845193376391176592931716961";
        proof {
            reveal_strlit("7087832377964131545651220267742883342179930832350845193376391176592931716961");
            assert(digits_pfx(s@, 76) && dec_val_chars(s@, 76) == std_pose_c(93));
        }
        s
    } else if i == 94 {
        let s = "34984411233898940973869087861225504483500912780307024595154545196097892807889";
        proof {
            reveal_strlit("34984411233898940973869087861225504483500912780307024595154545196097892807889");
            assert(digits_pfx(s@, 77) && dec_val_chars(s@, 77) == std_pose_c(94));
        }
        s
    } else {
        let s = "35766364158306764887416108757297765472332147961010533956614913565935878448984";
        proof {
            reveal_strlit("35766364158306764887416108757297765472332147961010533956614913565935878448984");
            assert(digits_pfx(s@, 77) && dec_val_chars(s@, 77) == std_pose_c(95));
        }
        s
    }
}

/// Poseidon constant literals 96 and 97, each proved equal to its
/// documented value.
#[verifier::spinoff_prover]
#[verifier::rlimit(100)]
fn pose_lit_24(i: usize) -> (s: &'static str)
    requires
        96 <= i < 98,
    ensures
        s@.len() >= 1,
        digits_pfx(s@, s@.len() as int),
        dec_val_chars(s@, s@.len() as int) == std_pose_c(i as int),
        std_pose_c(i as int) < p_val(),
{
    proof {
        reveal_with_fuel(digits_pfx, 80);
        reveal_with_fuel(dec_val_chars, 80);
    }
    if i == 96 {
        let s = "1765971701998656161486995693692800538505518481763639488010072221442068236951";
        proof {
            reveal_strlit("1765971701998656161486995693692800538505518481763639488010072221442068236951");
            assert(digits_pfx(s@, 76) && dec_val_chars(s@, 76) == std_pose_c(96));
        }
        s
    } else {
        let s = "52296260704967533238281867983484652098827616020272035805695017707768629021210";
        proof {
            reveal_strlit("52296260704967533238281867983484652098827616020272035805695017707768629021210");
            assert(digits_pfx(s@, 77) && dec_val_chars(s@, 77) == std_pose_c(97));
        }
        s
    }
}

/// Poseidon constant literals 98 and 99, each proved equal to its
/// documented value.
#[verifier::spinoff_prover]
#[verifier::rlimit(100)]
fn pose_lit_24b(i: usize) -> (s: &'static str)
    requires
        98 <= i < 100,
    ensures
        s@.len() >= 1,
        digits_pfx(s@, s@.len() as int),
        dec_val_chars(s@, s@.len() as int) == std_pose_c(i as int),
        std_pose_c(i as int) < p_val(),
{
    proof {
        reveal_with_fuel(digits_pfx, 80);
        reveal_with_fuel(dec_val_chars, 80);
    }
    if i == 98 {
        let s = "4935673489774322197628160742241883723281125866438378640636969542959380659457";
        proof {
            reveal_strlit("4935673489774322197628160742241883723281125866438378640636969542959380659457");
            assert(digits_pfx(s@, 76) && dec_val_chars(s@, 76) == std_pose_c(98));
        }
        s
    } else {
        let s = "49493374663267588751846054378343301708694531580092984346087290317742537210902";
        proof {
            reveal_strlit("49493374663267588751846054378343301708694531580092984346087290317742537210902");
            assert(digits_pfx(s@, 77) && dec_val_chars(s@, 77) == std_pose_c(99));
        }
        s
    }
}

/// Poseidon constant literals 100 to 103, each proved equal to its
/// documented value.
#[verifier::spinoff_prover]
#[verifier::rlimit(100)]
fn pose_lit_25(i: usize) -> (s: &'static str)
    requires
        100 <= i < 104,
    ensures
        s@.len() >= 1,
        digits_pfx(s@, s@.len() as int),
        dec_val_chars(s@, s@.len() as int) == std_pose_c(i as int),
        std_pose_c(i as int) < p_val(),
{
    proof {
        reveal_with_fuel(digits_pfx, 80);
        reveal_with_fuel(dec_val_chars, 80);
    }
    if i == 100 {
        let s = "11234520985865325412206403291118519753189986845681526796638090446788348697652";
        proof {
            reveal_strlit("11234520985865325412206403291118519753189986845681526796638090446788348697652");
            assert(digits_pfx(s@, 77) && dec_val_chars(s@, 77) == std_pose_c(100));
        }
        s
    } else if i == 101 {
        let s = "24240566602759984788029880030276085623682320979885122363103446030346976862554";
        proof {
            reveal_strlit("24240566602759984788029880030276085623682320979885122363103446030346976862554");
            assert(digits_pfx(s@, 77) && dec_val_chars(s@, 77) == std_pose_c(101));
        }
        s
    } else if i == 102 {
        let s = "45173673056688650486124798353267048676515652881324846851443098010775612892322";
        proof {
            reveal_strlit("45173673056688650486124798353267048676515652881324846851443098010775612892322");
            assert(digits_pfx(s@, 77) && dec_val_chars(s@, 77) == std_pose_c(102));
        }
        s
    } else {
        let s = "273339079894952168974065527137723282564095652951909656957160946114792896627";
        proof {
            reveal_strlit("273339079894952168974065527137723282564095652951909656957160946114792896627");
            assert(digits_pfx(s@, 75) && dec_val_chars(s@, 75) == std_pose_c(103));
        }
        s
    }
}

/// Poseidon constant literals 104 to 107, each proved equal to its
/// documented value.
#[verifier::spinoff_prover]
#[verifier::rlimit(100)]
fn pose_lit_26(i: usize) -> (s: &'static str)
    requires
        104 <= i < 108,
    ensures
        s@.len() >= 1,
        digits_pfx(s@, s@.len() as int),
        dec_val_chars(s@, s@.len() as int) == std_pose_c(i as int),
        std_pose_c(i as int) < p_val(),
{
    proof {
        reveal_with_fuel(digits_pfx, 80);
        reveal_with_fuel(dec_val_chars, 80);
    }
    if i == 104 {
        let s = "4470325051640351957976738782642661997153601739638632363210829100051811744274";
        proof {
            reveal_strlit("4470325051640351957976738782642661997153601739638632363210829100051811744274");
            assert(digits_pfx(s@, 76) && dec_val_chars(s@, 76) == std_pose_c(104));
        }
        s
    } else if i == 105 {
        let s = "35146154431885107533179241729875580217482204780231937987130147605583867466092";
        proof {
            reveal_strlit("35146154431885107533179241729875580217482204780231937987130147605583867466092");
            assert(digits_pfx(s@, 77) && dec_val_chars(s@, 77) == std_pose_c(105));
        }
        s
    } else if i == 106 {
        let s = "5623976303155942456710618286519758761204923686926813378548021075733755166889";
        proof {
            reveal_strlit("5623976303155942456710618286519758761204923686926813378548021075733755166889");
            assert(digits_pfx(s@, 76) && dec_val_chars(s@, 76) == std_pose_c(106));
        }
        s
    } else {
        let s = "24016465951530015578209275233668961482322584131459513288081598210134015257997";
        proof {
            reveal_strlit("24016465951530015578209275233668961482322584131459513288081598210134015257997");
            assert(digits_pfx(s@, 77) && dec_val_chars(s@, 77) == std_pose_c(107));
        }
        s
    }
}

/// Poseidon constant literals 108 to 111, each proved equal to its
/// documented value.
#[verifier::spinoff_prover]
#[verifier::rlimit(100)]
fn pose_lit_27(i: usize) -> (s: &'static str)
    requires
        108 <= i < 112,
    ensures
        s@.len() >= 1,
        digits_pfx(s@, s@.len() as int),
        dec_val_chars(s@, s@.len() as int) == std_pose_c(i as int),
        std_pose_c(i as int) < p_val(),
{
    proof {
        reveal_with_fuel(digits_pfx, 80);
        reveal_with_fuel(dec_val_chars, 80);
    }
    if i == 108 {
        let s = "17969920097176891022415687639709999939084490545645205326481661860931808113029";
        proof {
            reveal_strlit("17969920097176891022415687639709999939084490545645205326481661860931808113029");
            assert(digits_pfx(s@, 77) && dec_val_chars(s@, 77) == std_pose_c(108));
        }
        s
    } else if i == 109 {
        let s = "45152206508674411747856285000257938228137174933577379726580072509850619926251";
        proof {
            reveal_strlit("45152206508674411747856285000257938228137174933577379726580072509850619926251");
            assert(digits_pfx(s@, 77) && dec_val_chars(s@, 77) == std_pose_c(109));
        }
        s
    } else if i == 110 {
        let s = "38945634795250927360607537392732805897873100986379288027606175928019977509609";
        proof {
            reveal_strlit("38945634795250927360607537392732805897873100986379288027606175928019977509609");
            assert(digits_pfx(s@, 77) && dec_val_chars(s@, 77) == std_pose_c(110));
        }
        s
    } else {
        let s = "32851666289693613044889283133849490343674968726730793059165429991055922454070";
        proof {
            reveal_strlit("32851666289693613044889283133849490343674968726730793059165429991055922454070");
            assert(digits_pfx(s@, 77) && dec_val_chars(s@, 77) == std_pose_c(111));
        }
        s
    }
}

/// Poseidon constant literals 112 to 115, each proved equal to its
/// documented value.
#[verifier::spinoff_prover]
#[verifier::rlimit(100)]
fn pose_lit_28(i: usize) -> (s: &'static str)
    requires
        112 <= i < 116,
    ensures
        s@.len() >= 1,
        digits_pfx(s@, s@.len() as int),
        dec_val_chars(s@, s@.len() as int) == std_pose_c(i as int),
        std_pose_c(i as int) < p_val(),
{
    proof {
        reveal_with_fuel(digits_pfx, 80);
        reveal_with_fuel(dec_val_chars, 80);
    }
    if i == 112 {
        let s = "31944620853700630151347751910587969550223781655480776781612692884058563662268";
        proof {
            reveal_strlit("31944620853700630151347751910587969550223781655480776781612692884058563662268");
            assert(digits_pfx(s@, 77) && dec_val_chars(s@, 77) == std_pose_c(112));
        }
        s
    } else if i == 113 {
        let s = "25256966274452535017610572446887439115046074651331211781708168773655007778872";
        proof {
            reveal_strlit("25256966274452535017610572446887439115046074651331211781708168773655007778872");
            assert(digits_pfx(s@, 77) && dec_val_chars(s@, 77) == std_pose_c(113));
        }
        s
    } else if i == 114 {
        let s = "9486939021502590608732001628331695421223550406038486802197261945175668785507";
        proof {
            reveal_strlit("9486939021502590608732001628331695421223550406038486802197261945175668785507");
            assert(digits_pfx(s@, 76) && dec_val_chars(s@, 76) == std_pose_c(114));
        }
        s
    } else {
        let s = "39459143086960362426927505137137876218390935544236059938922871880000296175208";
        proof {
            reveal_strlit("39459143086960362426927505137137876218390935544236059938922871880000296175208");
            assert(digits_pfx(s@, 77) && dec_val_chars(s@, 77) == std_pose_c(115));
        }
        s
    }
}

/// Poseidon constant literals 116 to 119, each proved equal to its
/// documented value.
#[verifier::spinoff_prover]
#[verifier::rlimit(100)]
fn pose_lit_29(i: usize) -> (s: &'static str)
    requires
        116 <= i < 120,
    ensures
        s@.len() >= 1,
        digits_pfx(s@, s@.len() as int),
        dec_val_chars(s@, s@.len() as int) == std_pose_c(i as int),
        std_pose_c(i as int) < p_val(),
{
    proof {
        reveal_with_fuel(digits_pfx, 80);
        reveal_with_fuel(dec_val_chars, 80);
    }
    if i == 116 {
        let s = "31894450224048346260322339655447950546670422421242715439734122749915296243605";
        proof {
            reveal_strlit("31894450224048346260322339655447950546670422421242715439734122749915296243605");
            assert(digits_pfx(s@, 77) && dec_val_chars(s@, 77) == std_pose_c(116));
        }
        s
    } else if i == 117 {
        let s = "26892539091318428420931225040417651442139701587930804697886023619431558542747";
        proof {
            reveal_strlit("26892539091318428420931225040417651442139701587930804697886023619431558542747");
            assert(digits_pfx(s@, 77) && dec_val_chars(s@, 77) == std_pose_c(117));
        }
        s
    } else if i == 118 {
        let s = "2542844944718735302766446637202404427628413878092734865912744553984157161261";
        proof {
            reveal_strlit("2542844944718735302766446637202404427628413878092734865912744553984157161261");
            assert(digits_pfx(s@, 76) && dec_val_chars(s@, 76) == std_pose_c(118));
        }
        s
    } else {
        let s = "31883859221346313107414474846252752604992097590133961842848913019073014153010";
        proof {
            reveal_strlit("31883859221346313107414474846252752604992097590133961842848913019073014153010");
            assert(digits_pfx(s@, 77) && dec_val_chars(s@, 77) == std_pose_c(119));
        }
        s
    }
}

/// Poseidon constant literals 120 to 123, each proved equal to its
/// documented value.
#[verifier::spinoff_prover]
#[verifier::rlimit(100)]
fn pose_lit_30(i: usize) -> (s: &'static str)
    requires
        120 <= i < 124,
    ensures
        s@.len() >= 1,
        digits_pfx(s@, s@.len() as int),
        dec_val_chars(s@, s@.len() as int) == std_pose_c(i as int),
        std_pose_c(i as int) < p_val(),
{
    proof {
        reveal_with_fuel(digits_pfx, 80);
        reveal_with_fuel(dec_val_chars, 80);
    }
    if i == 120 {
        let s = "51303361359653464050006771537341226976539604964205923399469614564706008834052";
        proof {
            reveal_strlit("51303361359653464050006771537341226976539604964205923399469614564706008834052");
            assert(digits_pfx(s@, 77) && dec_val_chars(s@, 77) == std_pose_c(120));
        }
        s
    } else if i == 121 {
        let s = "51171387502764330562774849667033034283056080450385872897204773223645085369254";
        proof {
            reveal_strlit("51171387502764330562774849667033034283056080450385872897204773223645085369254");
            assert(digits_pfx(s@, 77) && dec_val_chars(s@, 77) == std_pose_c(121));
        }
        s
    } else if i == 122 {
        let s = "7237091576916241695047293084522141336268656276386088021954481852199921973216";
        proof {
            reveal_strlit("7237091576916241695047293084522141336268656276386088021954481852199921973216");
            assert(digits_pfx(s@, 76) && dec_val_chars(s@, 76) == std_pose_c(122));
        }
        s
    } else {
        let s = "25026554458962841467968682601680143746537618788336396538569095145280445662154";
        proof {
            reveal_strlit("25026554458962841467968682601680143746537618788336396538569095145280445662154");
            assert(digits_pfx(s@, 77) && dec_val_chars(s@, 77) == std_pose_c(123));
        }
        s
    }
}

/// Poseidon constant literals 124 to 127, each proved equal to its
/// documented value.
#[verifier::spinoff_prover]
#[verifier::rlimit(100)]
fn pose_lit_31(i: usize) -> (s: &'static str)
    requires
        124 <= i < 128,
    ensures
        s@.len() >= 1,
        digits_pfx(s@, s@.len() as int),
        dec_val_chars(s@, s@.len() as int) == std_pose_c(i as int),
        std_pose_c(i as int) < p_val(),
{
    proof {
        reveal_with_fuel(digits_pfx, 80);
        reveal_with_fuel(dec_val_chars, 80);
    }
    if i == 124 {
        let s = "16003513886762983460717836271035484656754723355114772159990269505739759600774";
        proof {
            reveal_strlit("16003513886762983460717836271035484656754723355114772159990269505739759600774");
            assert(digits_pfx(s@, 77) && dec_val_chars(s@, 77) == std_pose_c(124));
        }
        s
    } else if i == 125 {
        let s = "20742179979178809796122395691368538694837598010689782796398715701486525085958";
        proof {
            reveal_strlit("20742179979178809796122395691368538694837598010689782796398715701486525085958");
            assert(digits_pfx(s@, 77) && dec_val_chars(s@, 77) == std_pose_c(125));
        }
        s
    } else if i == 126 {
        let s = "44785832974715571208383539748048195425158621451201620091409304675643540484444";
        proof {
            reveal_strlit("44785832974715571208383539748048195425158621451201620091409304675643540484444");
            assert(digits_pfx(s@, 77) && dec_val_chars(s@, 77) == std_pose_c(126));
        }
        s
    } else {
        let s = "40997683756979855969631370242290487603852436449608298499325558394715696204831";
        proof {
            reveal_strlit("40997683756979855969631370242290487603852436449608298499325558394715696204831");
            assert(digits_pfx(s@, 77) && dec_val_chars(s@, 77) == std_pose_c(127));
        }
        s
    }
}

/// Poseidon constant literals 128 to 131, each proved equal to its
/// documented value.
#[verifier::spinoff_prover]
#[verifier::rlimit(100)]
fn pose_lit_32(i: usize) -> (s: &'static str)
    requires
        128 <= i < 132,
    ensures
        s@.len() >= 1,
        digits_pfx(s@, s@.len() as int),
        dec_val_chars(s@, s@.len() as int) == std_pose_c(i as int),
        std_pose_c(i as int) < p_val(),
{
    proof {
        reveal_with_fuel(digits_pfx, 80);
        reveal_with_fuel(dec_val_chars, 80);
    }
    if i == 128 {
        let s = "24039577999618876159836452559464600377553684696598310542830185648570694947325";
        proof {
            reveal_strlit("24039577999618876159836452559464600377553684696598310542830185648570694947325");
            assert(digits_pfx(s@, 77) && dec_val_chars(s@, 77) == std_pose_c(128));
        }
        s
    } else if i == 129 {
        let s = "214991500380221402745874275507138825943309188151683861156767017258335759518";
        proof {
            reveal_strlit("214991500380221402745874275507138825943309188151683861156767017258335759518");
            assert(digits_pfx(s@, 75) && dec_val_chars(s@, 75) == std_pose_c(129));
        }
        s
    } else if i == 130 {
        let s = "37648944229324812379904445632193391903358473357814505256571234492472677352375";
        proof {
            reveal_strlit("37648944229324812379904445632193391903358473357814505256571234492472677352375");
            assert(digits_pfx(s@, 77) && dec_val_chars(s@, 77) == std_pose_c(130));
        }
        s
    } else {
        let s = "33262001091080721927187326829375441597312853742311915461357184164050334176171";
        proof {
            reveal_strlit("33262001091080721927187326829375441597312853742311915461357184164050334176171");
            assert(digits_pfx(s@, 77) && dec_val_chars(s@, 77) == std_pose_c(131));
        }
        s
    }
}

/// Poseidon constant literals 132 to 135, each proved equal to its
/// documented value.
#[verifier::spinoff_prover]
#[verifier::rlimit(100)]
fn pose_lit_33(i: usize) -> (s: &'static str)
    requires
        132 <= i < 136,
    ensures
        s@.len() >= 1,
        digits_pfx(s@, s@.len() as int),
        dec_val_chars(s@, s@.len() as int) == std_pose_c(i as int),
        std_pose_c(i as int) < p_val(),
{
    proof {
        reveal_with_fuel(digits_pfx, 80);
        reveal_with_fuel(dec_val_chars, 80);
    }
    if i == 132 {
        let s = "12889759088432190033171086881844675377815686311282488955569491035800531227592";
        proof {
            reveal_strlit("12889759088432190033171086881844675377815686311282488955569491035800531227592");
            assert(digits_pfx(s@, 77) && dec_val_chars(s@, 77) == std_pose_c(132));
        }
        s
    } else if i == 133 {
        let s = "38889970121432469903433846063190552781925277874128916432889442865031400486457";
        proof {
            reveal_strlit("38889970121432469903433846063190552781925277874128916432889442865031400486457");
            assert(digits_pfx(s@, 77) && dec_val_chars(s@, 77) == std_pose_c(133));
        }
        s
    } else if i == 134 {
        let s = "9686759546395317438502700818478291413888291261781927399197594299119600593872";
        proof {
            reveal_strlit("9686759546395317438502700818478291413888291261781927399197594299119600593872");
            assert(digits_pfx(s@, 76) && dec_val_chars(s@, 76) == std_pose_c(134));
        }
        s
    } else {
        let s = "25228839869827315437841994432860023863461613471517457235105091951188556007171";
        proof {
            reveal_strlit("25228839869827315437841994432860023863461613471517457235105091951188556007171");
            assert(digits_pfx(s@, 77) && dec_val_chars(s@, 77) == std_pose_c(135));
        }
        s
    }
}

/// Poseidon constant literals 136 to 139, each proved equal to its
/// documented value.
#[verifier::spinoff_prover]
#[verifier::rlimit(100)]
fn pose_lit_34(i: usize) -> (s: &'static str)
    requires
        136 <= i < 140,
    ensures
        s@.len() >= 1,
        digits_pfx(s@, s@.len() as int),
        dec_val_chars(s@, s@.len() as int) == std_pose_c(i as int),
        std_pose_c(i as int) < p_val(),
{
    proof {
        reveal_with_fuel(digits_pfx, 80);
        reveal_with_fuel(dec_val_chars, 80);
    }
    if i == 136 {
        let s = "29251067411858749210993269168637503659802522399342640488863629751155422442084";
        proof {
            reveal_strlit("29251067411858749210993269168637503659802522399342640488863629751155422442084");
            assert(digits_pfx(s@, 77) && dec_val_chars(s@, 77) == std_pose_c(136));
        }
        s
    } else if i == 137 {
        let s = "40912660681512278236165911366927220401330409827994264103091984300131586078341";
        proof {
            reveal_strlit("40912660681512278236165911366927220401330409827994264103091984300131586078341");
            assert(digits_pfx(s@, 77) && dec_val_chars(s@, 77) == std_pose_c(137));
        }
        s
    } else if i == 138 {
        let s = "12796501909444494709088656380507035418412240267936921974592450125220369752821";
        proof {
            reveal_strlit("12796501909444494709088656380507035418412240267936921974592450125220369752821");
            assert(digits_pfx(s@, 77) && dec_val_chars(s@, 77) == std_pose_c(138));
        }
        s
    } else {
        let s = "41489997591227135571666436387925119767986380278590920811343183082128452793080";
        proof {
            reveal_strlit("41489997591227135571666436387925119767986380278590920811343183082128452793080");
            assert(digits_pfx(s@, 77) && dec_val_chars(s@, 77) == std_pose_c(139));
        }
        s
    }
}

/// Poseidon constant literals 140 to 143, each proved equal to its
/// documented value.
#[verifier::spinoff_prover]
#[verifier::rlimit(100)]
fn pose_lit_35(i: usize) -> (s: &'static str)
    requires
        140 <= i < 144,
    ensures
        s@.len() >= 1,
        digits_pfx(s@, s@.len() as int),
        dec_val_chars(s@, s@.len() as int) == std_pose_c(i as int),
        std_pose_c(i as int) < p_val(),
{
    proof {
        reveal_with_fuel(digits_pfx, 80);
        reveal_with_fuel(dec_val_chars, 80);
    }
    if i == 140 {
        let s = "21497862265009693334292006570547451455021214638930393134366176167326805799325";
        proof {
            reveal_strlit("21497862265009693334292006570547451455021214638930393134366176167326805799325");
            assert(digits_pfx(s@, 77) && dec_val_chars(s@, 77) == std_pose_c(140));
        }
        s
    } else if i == 141 {
        let s = "42759488993366187559528022270353477068325476435317366129099617149236057994173";
        proof {
            reveal_strlit("42759488993366187559528022270353477068325476435317366129099617149236057994173");
            assert(digits_pfx(s@, 77) && dec_val_chars(s@, 77) == std_pose_c(141));
        }
        s
    } else if i == 142 {
        let s = "51812786435352958751631482409057671996557140765865434087196139886155873550638";
        proof {
            reveal_strlit("51812786435352958751631482409057671996557140765865434087196139886155873550638");
            assert(digits_pfx(s@, 77) && dec_val_chars(s@, 77) == std_pose_c(142));
        }
        s
    } else {
        let s = "49668984917578993057336571483567900930503120626539459296975328351727319861276";
        proof {
            reveal_strlit("49668984917578993057336571483567900930503120626539459296975328351727319861276");
            assert(digits_pfx(s@, 77) && dec_val_chars(s@, 77) == std_pose_c(143));
        }
        s
    }
}

/// Poseidon constant literals 144 to 147, each proved equal to its
/// documented value.
#[verifier::spinoff_prover]
#[verifier::rlimit(100)]
fn pose_lit_36(i: usize) -> (s: &'static str)
    requires
        144 <= i < 148,
    ensures
        s@.len() >= 1,
        digits_pfx(s@, s@.len() as int),
        dec_val_chars(s@, s@.len() as int) == std_pose_c(i as int),
        std_pose_c(i as int) < p_val(),
{
    proof {
        reveal_with_fuel(digits_pfx, 80);
        reveal_with_fuel(dec_val_chars, 80);
    }
    if i == 144 {
        let s = "16647828498038646540925328826301561929374469486623027976723819473821480409681";
        proof {
            reveal_strlit("16647828498038646540925328826301561929374469486623027976723819473821480409681");
            assert(digits_pfx(s@, 77) && dec_val_chars(s@, 77) == std_pose_c(144));
        }
        s
    } else if i == 145 {
        let s = "48148303340548214354795067112758174231010308760482898449349672592745234924387";
        proof {
            reveal_strlit("48148303340548214354795067112758174231010308760482898449349672592745234924387");
            assert(digits_pfx(s@, 77) && dec_val_chars(s@, 77) == std_pose_c(145));
        }
        s
    } else if i == 146 {
        let s = "40514099213939369482769058963482609316155051560990264349668700968914554718236";
        proof {
            reveal_strlit("40514099213939369482769058963482609316155051560990264349668700968914554718236");
            assert(digits_pfx(s@, 77) && dec_val_chars(s@, 77) == std_pose_c(146));
        }
        s
    } else {
        let s = "36567947302783543506732234132138195442155777559454242003814702099955749246290";
        proof {
            reveal_strlit("36567947302783543506732234132138195442155777559454242003814702099955749246290");
            assert(digits_pfx(s@, 77) && dec_val_chars(s@, 77) == std_pose_c(147));
        }
        s
    }
}

/// Poseidon constant literals 148 to 151, each proved equal to its
/// documented value.
#[verifier::spinoff_prover]
#[verifier::rlimit(100)]
fn pose_lit_37(i: usize) -> (s: &'static str)
    requires
        148 <= i < 152,
    ensures
        s@.len() >= 1,
        digits_pfx(s@, s@.len() as int),
        dec_val_chars(s@, s@.len() as int) == std_pose_c(i as int),
        std_pose_c(i as int) < p_val(),
{
    proof {
        reveal_with_fuel(digits_pfx, 80);
        reveal_with_fuel(dec_val_chars, 80);
    }
    if i == 148 {
        let s = "22396816925035795192842094319757131771178499933587237012855640944068186589937";
        proof {
            reveal_strlit("22396816925035795192842094319757131771178499933587237012855640944068186589937");
            assert(digits_pfx(s@, 77) && dec_val_chars(s@, 77) == std_pose_c(148));
        }
        s
    } else if i == 149 {
        let s = "47761479716265566311036142819261705369735044145214592608213591050556455450430";
        proof {
            reveal_strlit("47761479716265566311036142819261705369735044145214592608213591050556455450430");
            assert(digits_pfx(s@, 77) && dec_val_chars(s@, 77) == std_pose_c(149));
        }
        s
    } else if i == 150 {
        let s = "13277094590686127307617107451297268367321013828763858520220510028318248040673";
        proof {
            reveal_strlit("13277094590686127307617107451297268367321013828763858520220510028318248040673");
            assert(digits_pfx(s@, 77) && dec_val_chars(s@, 77) == std_pose_c(150));
        }
        s
    } else {
        let s = "6273610774394348396010704017556554992266752629801490457323912355626787108751";
        proof {
            reveal_strlit("6273610774394348396010704017556554992266752629801490457323912355626787108751");
            assert(digits_pfx(s@, 76) && dec_val_chars(s@, 76) == std_pose_c(151));
        }
        s
    }
}

/// Poseidon constant literals 152 to 155, each proved equal to its
/// documented value.
#[verifier::spinoff_prover]
#[verifier::rlimit(100)]
fn pose_lit_38(i: usize) -> (s: &'static str)
    requires
        152 <= i < 156,
    ensures
        s@.len() >= 1,
        digits_pfx(s@, s@.len() as int),
        dec_val_chars(s@, s@.len() as int) == std_pose_c(i as int),
        std_pose_c(i as int) < p_val(),
{
    proof {
        reveal_with_fuel(digits_pfx, 80);
        reveal_with_fuel(dec_val_chars, 80);
    }
    if i == 152 {
        let s = "47394279615623798760617602748864924711531390489909756029248999925570450315302";
        proof {
            reveal_strlit("47394279615623798760617602748864924711531390489909756029248999925570450315302");
            assert(digits_pfx(s@, 77) && dec_val_chars(s@, 77) == std_pose_c(152));
        }
        s
    } else if i == 153 {
        let s = "27952252793623580780344613559829677253211432925530630621608481053048520434744";
        proof {
            reveal_strlit("27952252793623580780344613559829677253211432925530630621608481053048520434744");
            assert(digits_pfx(s@, 77) && dec_val_chars(s@, 77) == std_pose_c(153));
        }
        s
    } else if i == 154 {
        let s = "1683222943011658234228486862639342402730538635204883039431226239924268835592";
        proof {
            reveal_strlit("1683222943011658234228486862639342402730538635204883039431226239924268835592");
            assert(digits_pfx(s@, 76) && dec_val_chars(s@, 76) == std_pose_c(154));
        }
        s
    } else {
        let s = "6849709550515639669397513895396396226183305237153796793058311861850242817732";
        proof {
            reveal_strlit("6849709550515639669397513895396396226183305237153796793058311861850242817732");
            assert(digits_pfx(s@, 76) && dec_val_chars(s@, 76) == std_pose_c(155));
        }
        s
    }
}

/// Poseidon constant literals 156 to 159, each proved equal to its
/// documented value.
#[verifier::spinoff_prover]
#[verifier::rlimit(100)]
fn pose_lit_39(i: usize) -> (s: &'static str)
    requires
        156 <= i < 160,
    ensures
        s@.len() >= 1,
        digits_pfx(s@, s@.len() as int),
        dec_val_chars(s@, s@.len() as int) == std_pose_c(i as int),
        std_pose_c(i as int) < p_val(),
{
    proof {
        reveal_with_fuel(digits_pfx, 80);
        reveal_with_fuel(dec_val_chars, 80);
    }
    if i == 156 {
        let s = "51524350017816629912679960748295545024593637560633508281874724597080573807830";
        proof {
            reveal_strlit("51524350017816629912679960748295545024593637560633508281874724597080573807830");
            assert(digits_pfx(s@, 77) && dec_val_chars(s@, 77) == std_pose_c(156));
        }
        s
    } else if i == 157 {
        let s = "26590614177194547630006347843068513496427790322854759433492355517360208924714";
        proof {
            reveal_strlit("26590614177194547630006347843068513496427790322854759433492355517360208924714");
            assert(digits_pfx(s@, 77) && dec_val_chars(s@, 77) == std_pose_c(157));
        }
        s
    } else if i == 158 {
        let s = "31548830001396651725711310298465958490865636855427227043617585502978053092924";
        proof {
            reveal_strlit("31548830001396651725711310298465958490865636855427227043617585502978053092924");
            assert(digits_pfx(s@, 77) && dec_val_chars(s@, 77) == std_pose_c(158));
        }
        s
    } else {
        let s = "14291568473806392803367440164088272381690062239638560607879858528716058147676";
        proof {
            reveal_strlit("14291568473806392803367440164088272381690062239638560607879858528716058147676");
            assert(digits_pfx(s@, 77) && dec_val_chars(s@, 77) == std_pose_c(159));
        }
        s
    }
}

/// Poseidon constant literals 160 to 163, each proved equal to its
/// documented value.
#[verifier::spinoff_prover]
#[verifier::rlimit(100)]
fn pose_lit_40(i: usize) -> (s: &'static str)
    requires
        160 <= i < 164,
    ensures
        s@.len() >= 1,
        digits_pfx(s@, s@.len() as int),
        dec_val_chars(s@, s@.len() as int) == std_pose_c(i as int),
        std_pose_c(i as int) < p_val(),
{
    proof {
        reveal_with_fuel(digits_pfx, 80);
        reveal_with_fuel(dec_val_chars, 80);
    }
    if i == 160 {
        let s = "21146452903160991922099734199583866923318964586815062550024895407430164358523";
        proof {
            reveal_strlit("21146452903160991922099734199583866923318964586815062550024895407430164358523");
            assert(digits_pfx(s@, 77) && dec_val_chars(s@, 77) == std_pose_c(160));
        }
        s
    } else if i == 161 {
        let s = "22961005724583382013438450487662047962072123198815308647967555251332825175693";
        proof {
            reveal_strlit("22961005724583382013438450487662047962072123198815308647967555251332825175693");
            assert(digits_pfx(s@, 77) && dec_val_chars(s@, 77) == std_pose_c(161));
        }
        s
    } else if i == 162 {
        let s = "4752908842318626074338926279870993084957055641402767877988223199262408017438";
        proof {
            reveal_strlit("4752908842318626074338926279870993084957055641402767877988223199262408017438");
            assert(digits_pfx(s@, 76) && dec_val_chars(s@, 76) == std_pose_c(162));
        }
        s
    } else {
        let s = "41544523600430331260332604149473035199994864893327747257504064038791086157408";
        proof {
            reveal_strlit("41544523600430331260332604149473035199994864893327747257504064038791086157408");
            assert(digits_pfx(s@, 77) && dec_val_chars(s@, 77) == std_pose_c(163));
        }
        s
    }
}

/// Poseidon constant literals 164 to 167, each proved equal to its
/// documented value.
#[verifier::spinoff_prover]
#[verifier::rlimit(100)]
fn pose_lit_41(i: usize) -> (s: &'static str)
    requires
        164 <= i < 168,
    ensures
        s@.len() >= 1,
        digits_pfx(s@, s@.len() as int),
        dec_val_chars(s@, s@.len() as int) == std_pose_c(i as int),
        std_pose_c(i as int) < p_val(),
{
    proof {
        reveal_with_fuel(digits_pfx, 80);
        reveal_with_fuel(dec_val_chars, 80);
    }
    if i == 164 {
        let s = "17323878296591859990733132832893641096022161936583121997952997880406237212813";
        proof {
            reveal_strlit("17323878296591859990733132832893641096022161936583121997952997880406237212813");
            assert(digits_pfx(s@, 77) && dec_val_chars(s@, 77) == std_pose_c(164));
        }
        s
    } else if i == 165 {
        let s = "18014582744613086697405046476881081314871698927785490238333612330034405321202";
        proof {
            reveal_strlit("18014582744613086697405046476881081314871698927785490238333612330034405321202");
            assert(digits_pfx(s@, 77) && dec_val_chars(s@, 77) == std_pose_c(165));
        }
        s
    } else if i == 166 {
        let s = "45325447140824171211209633262297712878556500592023247082629492785769121758434";
        proof {
            reveal_strlit("45325447140824171211209633262297712878556500592023247082629492785769121758434");
            assert(digits_pfx(s@, 77) && dec_val_chars(s@, 77) == std_pose_c(166));
        }
        s
    } else {
        let s = "6192753434333002929210820794040779560623421075700800400752599138519650269040";
        proof {
            reveal_strlit("6192753434333002929210820794040779560623421075700800400752599138519650269040");
            assert(digits_pfx(s@, 76) && dec_val_chars(s@, 76) == std_pose_c(167));
        }
        s
    }
}

/// Poseidon constant literals 168 to 171, each proved equal to its
/// documented value.
#[verifier::spinoff_prover]
#[verifier::rlimit(100)]
fn pose_lit_42(i: usize) -> (s: &'static str)
    requires
        168 <= i < 172,
    ensures
        s@.len() >= 1,
        digits_pfx(s@, s@.len() as int),
        dec_val_chars(s@, s@.len() as int) == std_pose_c(i as int),
        std_pose_c(i as int) < p_val(),
{
    proof {
        reveal_with_fuel(digits_pfx, 80);
        reveal_with_fuel(dec_val_chars, 80);
    }
    if i == 168 {
        let s = "12937001546279985738495952624875312380127801527837660882855310431015537184413";
        proof {
            reveal_strlit("12937001546279985738495952624875312380127801527837660882855310431015537184413");
            assert(digits_pfx(s@, 77) && dec_val_chars(s@, 77) == std_pose_c(168));
        }
        s
    } else if i == 169 {
        let s = "45991618799696924909840068913271150748052998998510820293768267349781597832497";
        proof {
            reveal_strlit("45991618799696924909840068913271150748052998998510820293768267349781597832497");
            assert(digits_pfx(s@, 77) && dec_val_chars(s@, 77) == std_pose_c(169));
        }
        s
    } else if i == 170 {
        let s = "37441188106719457933929221474454571110916912448355945524409576665808556247872";
        proof {
            reveal_strlit("37441188106719457933929221474454571110916912448355945524409576665808556247872");
            assert(digits_pfx(s@, 77) && dec_val_chars(s@, 77) == std_pose_c(170));
        }
        s
    } else {
        let s = "49875923679586708113406579244909793162425404239213510953269412337363307325571";
        proof {
            reveal_strlit("49875923679586708113406579244909793162425404239213510953269412337363307325571");
            assert(digits_pfx(s@, 77) && dec_val_chars(s@, 77) == std_pose_c(171));
        }
        s
    }
}

/// Poseidon constant literals 172 to 175, each proved equal to its
/// documented value.
#[verifier::spinoff_prover]
#[verifier::rlimit(100)]
fn pose_lit_43(i: usize) -> (s: &'static str)
    requires
        172 <= i < 176,
    ensures
        s@.len() >= 1,
        digits_pfx(s@, s@.len() as int),
        dec_val_chars(s@, s@.len() as int) == std_pose_c(i as int),
        std_pose_c(i as int) < p_val(),
{
    proof {
        reveal_with_fuel(digits_pfx, 80);
        reveal_with_fuel(dec_val_chars, 80);
    }
    if i == 172 {
        let s = "15051465698071304017966667797323113094420513709580063806706433232853573089040";
        proof {
            reveal_strlit("15051465698071304017966667797323113094420513709580063806706433232853573089040");
            assert(digits_pfx(s@, 77) && dec_val_chars(s@, 77) == std_pose_c(172));
        }
        s
    } else if i == 173 {
        let s = "10338905189138871748742400929101717755982978259187828256039071250817040249017";
        proof {
            reveal_strlit("10338905189138871748742400929101717755982978259187828256039071250817040249017");
            assert(digits_pfx(s@, 77) && dec_val_chars(s@, 77) == std_pose_c(173));
        }
        s
    } else if i == 174 {
        let s = "40261933448177008341539991920645739011692467645144896682394869561245899318641";
        proof {
            reveal_strlit("40261933448177008341539991920645739011692467645144896682394869561245899318641");
            assert(digits_pfx(s@, 77) && dec_val_chars(s@, 77) == std_pose_c(174));
        }
        s
    } else {
        let s = "38346498339252184147870281431364733631809877281747451440216067081256241485418";
        proof {
            reveal_strlit("38346498339252184147870281431364733631809877281747451440216067081256241485418");
            assert(digits_pfx(s@, 77) && dec_val_chars(s@, 77) == std_pose_c(175));
        }
        s
    }
}

/// Poseidon constant literals 176 to 179, each proved equal to its
/// documented value.
#[verifier::spinoff_prover]
#[verifier::rlimit(100)]
fn pose_lit_44(i: usize) -> (s: &'static str)
    requires
        176 <= i < 180,
    ensures
        s@.len() >= 1,
        digits_pfx(s@, s@.len() as int),
        dec_val_chars(s@, s@.len() as int) == std_pose_c(i as int),
        std_pose_c(i as int) < p_val(),
{
    proof {
        reveal_with_fuel(digits_pfx, 80);
        reveal_with_fuel(dec_val_chars, 80);
    }
    if i == 176 {
        let s = "6209216396715641040468803949857167055175110420218294975303260728579180870134";
        proof {
            reveal_strlit("6209216396715641040468803949857167055175110420218294975303260728579180870134");
            assert(digits_pfx(s@, 76) && dec_val_chars(s@, 76) == std_pose_c(176));
        }
        s
    } else if i == 177 {
        let s = "25923422290512595808420551575642237631007497169886590851128840338102194873726";
        proof {
            reveal_strlit("25923422290512595808420551575642237631007497169886590851128840338102194873726");
            assert(digits_pfx(s@, 77) && dec_val_chars(s@, 77) == std_pose_c(177));
        }
        s
    } else if i == 178 {
        let s = "11953618934086915505672657493115697182858104796786340137294500949047339928290";
        proof {
            reveal_strlit("11953618934086915505672657493115697182858104796786340137294500949047339928290");
            assert(digits_pfx(s@, 77) && dec_val_chars(s@, 77) == std_pose_c(178));
        }
        s
    } else {
        let s = "48506710952023206646326838201389789459004051035511888474426942257560405427104";
        proof {
            reveal_strlit("48506710952023206646326838201389789459004051035511888474426942257560405427104");
            assert(digits_pfx(s@, 77) && dec_val_chars(s@, 77) == std_pose_c(179));
        }
        s
    }
}

/// Poseidon constant literals 180 to 183, each proved equal to its
/// documented value.
#[verifier::spinoff_prover]
#[verifier::rlimit(100)]
fn pose_lit_45(i: usize) -> (s: &'static str)
    requires
        180 <= i < 184,
    ensures
        s@.len() >= 1,
        digits_pfx(s@, s@.len() as int),
        dec_val_chars(s@, s@.len() as int) == std_pose_c(i as int),
        std_pose_c(i as int) < p_val(),
{
    proof {
        reveal_with_fuel(digits_pfx, 80);
        reveal_with_fuel(dec_val_chars, 80);
    }
    if i == 180 {
        let s = "49584811575438811511092715559885015474424100729555178730940640525393341823572";
        proof {
            reveal_strlit("49584811575438811511092715559885015474424100729555178730940640525393341823572");
            assert(digits_pfx(s@, 77) && dec_val_chars(s@, 77) == std_pose_c(180));
        }
        s
    } else if i == 181 {
        let s = "25222528947373923151054372702664425173210441980263130389325557963853429239320";
        proof {
            reveal_strlit("25222528947373923151054372702664425173210441980263130389325557963853429239320");
            assert(digits_pfx(s@, 77) && dec_val_chars(s@, 77) == std_pose_c(181));
        }
        s
    } else if i == 182 {
        let s = "36212452941316997504575803214309342413443151488267891949906815090453746563323";
        proof {
            reveal_strlit("36212452941316997504575803214309342413443151488267891949906815090453746563323");
            assert(digits_pfx(s@, 77) && dec_val_chars(s@, 77) == std_pose_c(182));
        }
        s
    } else {
        let s = "19548334171603533109137618032918088438321356008712800140019849908969476369140";
        proof {
            reveal_strlit("19548334171603533109137618032918088438321356008712800140019849908969476369140");
            assert(digits_pfx(s@, 77) && dec_val_chars(s@, 77) == std_pose_c(183));
        }
        s
    }
}

/// Poseidon constant literals 184 to 187, each proved equal to its
/// documented value.
#[verifier::spinoff_prover]
#[verifier::rlimit(100)]
fn pose_lit_46(i: usize) -> (s: &'static str)
    requires
        184 <= i < 188,
    ensures
        s@.len() >= 1,
        digits_pfx(s@, s@.len() as int),
        dec_val_chars(s@, s@.len() as int) == std_pose_c(i as int),
        std_pose_c(i as int) < p_val(),
{
    proof {
        reveal_with_fuel(digits_pfx, 80);
        reveal_with_fuel(dec_val_chars, 80);
    }
    if i == 184 {
        let s = "13369714008256347363334888026585995433724817786797528430136744458743428376798";
        proof {
            reveal_strlit("13369714008256347363334888026585995433724817786797528430136744458743428376798");
            assert(digits_pfx(s@, 77) && dec_val_chars(s@, 77) == std_pose_c(184));
        }
        s
    } else if i == 185 {
        let s = "23153174875441426069922538845839074574095797738892298576581895020444392853731";
        proof {
            reveal_strlit("23153174875441426069922538845839074574095797738892298576581895020444392853731");
            assert(digits_pfx(s@, 77) && dec_val_chars(s@, 77) == std_pose_c(185));
        }
        s
    } else if i == 186 {
        let s = "19950632315767750645780485212179021291844439659606854957365124208057044477001";
        proof {
            reveal_strlit("19950632315767750645780485212179021291844439659606854957365124208057044477001");
            assert(digits_pfx(s@, 77) && dec_val_chars(s@, 77) == std_pose_c(186));
        }
        s
    } else {
        let s = "4990085320684307481424051057758258811192003289472239932032551966513564492664";
        proof {
            reveal_strlit("4990085320684307481424051057758258811192003289472239932032551966513564492664");
            assert(digits_pfx(s@, 76) && dec_val_chars(s@, 76) == std_pose_c(187));
        }
        s
    }
}

/// Poseidon constant literals 188 to 191, each proved equal to its
/// documented value.
#[verifier::spinoff_prover]
#[verifier::rlimit(100)]
fn pose_lit_47(i: usize) -> (s: &'static str)
    requires
        188 <= i < 192,
    ensures
        s@.len() >= 1,
        digits_pfx(s@, s@.len() as int),
        dec_val_chars(s@, s@.len() as int) == std_pose_c(i as int),
        std_pose_c(i as int) < p_val(),
{
    proof {
        reveal_with_fuel(digits_pfx, 80);
        reveal_with_fuel(dec_val_chars, 80);
    }
    if i == 188 {
        let s = "29810043862384409261569733347989054089853302964778668946432779952952625186706";
        proof {
            reveal_strlit("29810043862384409261569733347989054089853302964778668946432779952952625186706");
            assert(digits_pfx(s@, 77) && dec_val_chars(s@, 77) == std_pose_c(188));
        }
        s
    } else if i == 189 {
        let s = "10937492441648375945337911315608624372433158520395209903090712138844575570844";
        proof {
            reveal_strlit("10937492441648375945337911315608624372433158520395209903090712138844575570844");
            assert(digits_pfx(s@, 77) && dec_val_chars(s@, 77) == std_pose_c(189));
        }
        s
    } else if i == 190 {
        let s = "24981706249730491732129119057314109520549309496394969130105355950186024721860";
        proof {
            reveal_strlit("24981706249730491732129119057314109520549309496394969130105355950186024721860");
            assert(digits_pfx(s@, 77) && dec_val_chars(s@, 77) == std_pose_c(190));
        }
        s
    } else {
        let s = "10498082524469215029826843019306692952360905490979497919767209022386939911216";
        proof {
            reveal_strlit("10498082524469215029826843019306692952360905490979497919767209022386939911216");
            assert(digits_pfx(s@, 77) && dec_val_chars(s@, 77) == std_pose_c(191));
        }
        s
    }
}

/// Poseidon constant literals 192 to 194, each proved equal to its
/// documented value.
#[verifier::spinoff_prover]
#[verifier::rlimit(100)]
fn pose_lit_48(i: usize) -> (s: &'static str)
    requires
        192 <= i < 195,
    ensures
        s@.len() >= 1,
        digits_pfx(s@, s@.len() as int),
        dec_val_chars(s@, s@.len() as int) == std_pose_c(i as int),
        std_pose_c(i as int) < p_val(),
{
    proof {
        reveal_with_fuel(digits_pfx, 80);
        reveal_with_fuel(dec_val_chars, 80);
    }
    if i == 192 {
        let s = "15682375221169428458922809183562392617423770660027773228464622792081026981791";
        proof {
            reveal_strlit("15682375221169428458922809183562392617423770660027773228464622792081026981791");
            assert(digits_pfx(s@, 77) && dec_val_chars(s@, 77) == std_pose_c(192));
        }
        s
    } else if i == 193 {
        let s = "41914385147673242564111169184735297479310144571630342213035237856939024640011";
        proof {
            reveal_strlit("41914385147673242564111169184735297479310144571630342213035237856939024640011");
            assert(digits_pfx(s@, 77) && dec_val_chars(s@, 77) == std_pose_c(193));
        }
        s
    } else {
        let s = "39667818743665708661866396692813914317148400284941420155363896112617842800421";
        proof {
            reveal_strlit("39667818743665708661866396692813914317148400284941420155363896112617842800421");
            assert(digits_pfx(s@, 77) && dec_val_chars(s@, 77) == std_pose_c(194));
        }
        s
    }
}

/// The `i`-th Poseidon constant literal: a canonical decimal numeral whose
/// value is the documented table entry.
fn pose_lit(i: usize) -> (s: &'static str)
    requires
        i < 195,
    ensures
        s@.len() >= 1,
        digits_pfx(s@, s@.len() as int),
        dec_val_chars(s@, s@.len() as int) == std_pose_c(i as int),
        std_pose_c(i as int) < p_val(),
{
    if i < 4 {
        pose_lit_00(i)
    } else if i < 8 {
        pose_lit_01(i)
    } else if i < 12 {
        pose_lit_02(i)
    } else if i < 16 {
        pose_lit_03(i)
    } else if i < 20 {
        pose_lit_04(i)
    } else if i < 24 {
        pose_lit_05(i)
    } else if i < 28 {
        pose_lit_06(i)
    } else if i < 32 {
        pose_lit_07(i)
    } else if i < 36 {
        pose_lit_08(i)
    } else if i < 40 {
        pose_lit_09(i)
    } else if i < 44 {
        pose_lit_10(i)
    } else if i < 48 {
        pose_lit_11(i)
    } else if i < 52 {
        pose_lit_12(i)
    } else if i < 56 {
        pose_lit_13(i)
    } else if i < 60 {
        pose_lit_14(i)
    } else if i < 64 {
        pose_lit_15(i)
    } else if i < 68 {
        pose_lit_16(i)
    } else if i < 72 {
        pose_lit_17(i)
    } else if i < 76 {
        pose_lit_18(i)
    } else if i < 80 {
        pose_lit_19(i)
    } else if i < 84 {
        pose_lit_20(i)
    } else if i < 88 {
        pose_lit_21(i)
    } else if i < 92 {
        pose_lit_22(i)
    } else if i < 96 {
        pose_lit_23(i)
    } else if i < 98 {
        pose_lit_24(i)
    } else if i < 100 {
        pose_lit_24b(i)
    } else if i < 104 {
        pose_lit_25(i)
    } else if i < 108 {
        pose_lit_26(i)
    } else if i < 112 {
        pose_lit_27(i)
    } else if i < 116 {
        pose_lit_28(i)
    } else if i < 120 {
        pose_lit_29(i)
    } else if i < 124 {
        pose_lit_30(i)
    } else if i < 128 {
        pose_lit_31(i)
    } else if i < 132 {
        pose_lit_32(i)
    } else if i < 136 {
        pose_lit_33(i)
    } else if i < 140 {
        pose_lit_34(i)
    } else if i < 144 {
        pose_lit_35(i)
    } else if i < 148 {
        pose_lit_36(i)
    } else if i < 152 {
        pose_lit_37(i)
    } else if i < 156 {
        pose_lit_38(i)
    } else if i < 160 {
        pose_lit_39(i)
    } else if i < 164 {
        pose_lit_40(i)
    } else if i < 168 {
        pose_lit_41(i)
    } else if i < 172 {
        pose_lit_42(i)
    } else if i < 176 {
        pose_lit_43(i)
    } else if i < 180 {
        pose_lit_44(i)
    } else if i < 184 {
        pose_lit_45(i)
    } else if i < 188 {
        pose_lit_46(i)
    } else if i < 192 {
        pose_lit_47(i)
    } else {
        pose_lit_48(i)
    }
}

/// Rescue-Prime constant literals 0 to 3, each proved equal to its
/// documented value.
#[verifier::spinoff_prover]
#[verifier::rlimit(100)]
fn rescue_lit_0(i: usize) -> (s: &'static str)
    requires
        0 <= i < 4,
    ensures
        s@.len() >= 1,
        digits_pfx(s@, s@.len() as int),
        dec_val_chars(s@, s@.len() as int) == std_rescue_c(i as int),
        std_rescue_c(i as int) < p_val(),
{
    proof {
        reveal_with_fuel(digits_pfx, 80);
        reveal_with_fuel(dec_val_chars, 80);
    }
    if i == 0 {
        let s = "41550313466542986686381187475386224890619213663365144133966235154580769474314";
        proof {
            reveal_strlit("41550313466542986686381187475386224890619213663365144133966235154580769474314");
            assert(digits_pfx(s@, 77) && dec_val_chars(s@, 77) == std_rescue_c(0));
        }
        s
    } else if i == 1 {
        let s = "46235636976106534322257334778843335414724041131494488188341064387240106153243";
        proof {
            reveal_strlit("46235636976106534322257334778843335414724041131494488188341064387240106153243");
            assert(digits_pfx(s@, 77) && dec_val_chars(s@, 77) == std_rescue_c(1));
        }
        s
    } else if i == 2 {
        let s = "43314474564749977258448857367299700960955407362432105710780024592683745356396";
        proof {
            reveal_strlit("43314474564749977258448857367299700960955407362432105710780024592683745356396");
            assert(digits_pfx(s@, 77) && dec_val_chars(s@, 77) == std_rescue_c(2));
        }
        s
    } else {
        let s = "6610248367712747417489710323792672924291015441980260828503764505802544302133";
        proof {
            reveal_strlit("6610248367712747417489710323792672924291015441980260828503764505802544302133");
            assert(digits_pfx(s@, 76) && dec_val_chars(s@, 76) == std_rescue_c(3));
        }
        s
    }
}

/// Rescue-Prime constant literals 4 to 7, each proved equal to its
/// documented value.
#[verifier::spinoff_prover]
#[verifier::rlimit(100)]
fn rescue_lit_1(i: usize) -> (s: &'static str)
    requires
        4 <= i < 8,
    ensures
        s@.len() >= 1,
        digits_pfx(s@, s@.len() as int),
        dec_val_chars(s@, s@.len() as int) == std_rescue_c(i as int),
        std_rescue_c(i as int) < p_val(),
{
    proof {
        reveal_with_fuel(digits_pfx, 80);
        reveal_with_fuel(dec_val_chars, 80);
    }
    if i == 4 {
        let s = "48902835969048727949157312845529356609975996102724786706493615060533278826882";
        proof {
            reveal_strlit("48902835969048727949157312845529356609975996102724786706493615060533278826882");
            assert(digits_pfx(s@, 77) && dec_val_chars(s@, 77) == std_rescue_c(4));
        }
        s
    } else if i == 5 {
        let s = "48020430798213331714265136872960067665339968785807617895912965210318833506033";
        proof {
            reveal_strlit("48020430798213331714265136872960067665339968785807617895912965210318833506033");
            assert(digits_pfx(s@, 77) && dec_val_chars(s@, 77) == std_rescue_c(5));
        }
        s
    } else if i == 6 {
        let s = "46852092121783048129054015209292285454336628007814272371588179933784556551027";
        proof {
            reveal_strlit("46852092121783048129054015209292285454336628007814272371588179933784556551027");
            assert(digits_pfx(s@, 77) && dec_val_chars(s@, 77) == std_rescue_c(6));
        }
        s
    } else {
        let s = "18285529991400289460558442082097384209909111358722088777170630517004445042401";
        proof {
            reveal_strlit("18285529991400289460558442082097384209909111358722088777170630517004445042401");
            assert(digits_pfx(s@, 77) && dec_val_chars(s@, 77) == std_rescue_c(7));
        }
        s
    }
}

/// Rescue-Prime constant literals 8 to 11, each proved equal to its
/// documented value.
#[verifier::spinoff_prover]
#[verifier::rlimit(100)]
fn rescue_lit_2(i: usize) -> (s: &'static str)
    requires
        8 <= i < 12,
    ensures
        s@.len() >= 1,
        digits_pfx(s@, s@.len() as int),
        dec_val_chars(s@, s@.len() as int) == std_rescue_c(i as int),
        std_rescue_c(i as int) < p_val(),
{
    proof {
        reveal_with_fuel(digits_pfx, 80);
        reveal_with_fuel(dec_val_chars, 80);
    }
    if i == 8 {
        let s = "39715240121717033403976206014745165566831987912684275661267961794798544871325";
        proof {
            reveal_strlit("39715240121717033403976206014745165566831987912684275661267961794798544871325");
            assert(digits_pfx(s@, 77) && dec_val_chars(s@, 77) == std_rescue_c(8));
        }
        s
    } else if i == 9 {
        let s = "39129494641659579693129270149028838267319001600817760345550310657253464282481";
        proof {
            reveal_strlit("39129494641659579693129270149028838267319001600817760345550310657253464282481");
            assert(digits_pfx(s@, 77) && dec_val_chars(s@, 77) == std_rescue_c(9));
        }
        s
    } else if i == 10 {
        let s = "16498478026547012198311182730134271651465725575734990928064879994773584955147";
        proof {
            reveal_strlit("16498478026547012198311182730134271651465725575734990928064879994773584955147");
            assert(digits_pfx(s@, 77) && dec_val_chars(s@, 77) == std_rescue_c(10));
        }
        s
    } else {
        let s = "15538063473797736748725276996847281947218186074842698727649618962576399148406";
        proof {
            reveal_strlit("15538063473797736748725276996847281947218186074842698727649618962576399148406");
            assert(digits_pfx(s@, 77) && dec_val_chars(s@, 77) == std_rescue_c(11));
        }
        s
    }
}

/// Rescue-Prime constant literals 12 to 15, each proved equal to its
/// documented value.
#[verifier::spinoff_prover]
#[verifier::rlimit(100)]
fn rescue_lit_3(i: usize) -> (s: &'static str)
    requires
        12 <= i < 16,
    ensures
        s@.len() >= 1,
        digits_pfx(s@, s@.len() as int),
        dec_val_chars(s@, s@.len() as int) == std_rescue_c(i as int),
        std_rescue_c(i as int) < p_val(),
{
    proof {
        reveal_with_fuel(digits_pfx, 80);
        reveal_with_fuel(dec_val_chars, 80);
    }
    if i == 12 {
        let s = "12101073411609416127490814861966272020523587207284114445457770741397044122169";
        proof {
            reveal_strlit("12101073411609416127490814861966272020523587207284114445457770741397044122169");
            assert(digits_pfx(s@, 77) && dec_val_chars(s@, 77) == std_rescue_c(12));
        }
        s
    } else if i == 13 {
        let s = "41191457238696909629534734120094776042526534898929749767454246268859687595206";
        proof {
            reveal_strlit("41191457238696909629534734120094776042526534898929749767454246268859687595206");
            assert(digits_pfx(s@, 77) && dec_val_chars(s@, 77) == std_rescue_c(13));
        }
        s
    } else if i == 14 {
        let s = "14461612708761797000547489494258040283490469843669982750248191854462915994269";
        proof {
            reveal_strlit("14461612708761797000547489494258040283490469843669982750248191854462915994269");
            assert(digits_pfx(s@, 77) && dec_val_chars(s@, 77) == std_rescue_c(14));
        }
        s
    } else {
        let s = "21457542915987289663022414331227578968074137299214232740648201393058262727787";
        proof {
            reveal_strlit("21457542915987289663022414331227578968074137299214232740648201393058262727787");
            assert(digits_pfx(s@, 77) && dec_val_chars(s@, 77) == std_rescue_c(15));
        }
        s
    }
}

/// Rescue-Prime constant literals 16 to 19, each proved equal to its
/// documented value.
#[verifier::spinoff_prover]
#[verifier::rlimit(100)]
fn rescue_lit_4(i: usize) -> (s: &'static str)
    requires
        16 <= i < 20,
    ensures
        s@.len() >= 1,
        digits_pfx(s@, s@.len() as int),
        dec_val_chars(s@, s@.len() as int) == std_rescue_c(i as int),
        std_rescue_c(i as int) < p_val(),
{
    proof {
        reveal_with_fuel(digits_pfx, 80);
        reveal_with_fuel(dec_val_chars, 80);
    }
    if i == 16 {
        let s = "29910968875453454114258285197546306058264337380169261403677155868116380953177";
        proof {
            reveal_strlit("29910968875453454114258285197546306058264337380169261403677155868116380953177");
            assert(digits_pfx(s@, 77) && dec_val_chars(s@, 77) == std_rescue_c(16));
        }
        s
    } else if i == 17 {
        let s = "1898093979887951345662468894551151764048081657277492505601547831464044030732";
        proof {
            reveal_strlit("1898093979887951345662468894551151764048081657277492505601547831464044030732");
            assert(digits_pfx(s@, 76) && dec_val_chars(s@, 76) == std_rescue_c(17));
        }
        s
    } else if i == 18 {
        let s = "48489871713406609021659256694551631688695628741735467423625834725439773239420";
        proof {
            reveal_strlit("48489871713406609021659256694551631688695628741735467423625834725439773239420");
            assert(digits_pfx(s@, 77) && dec_val_chars(s@, 77) == std_rescue_c(18));
        }
        s
    } else {
        let s = "15812043658450185541651447416198363552300888092238882774860191251166424574103";
        proof {
            reveal_strlit("15812043658450185541651447416198363552300888092238882774860191251166424574103");
            assert(digits_pfx(s@, 77) && dec_val_chars(s@, 77) == std_rescue_c(19));
        }
        s
    }
}

/// Rescue-Prime constant literals 20 to 23, each proved equal to its
/// documented value.
#[verifier::spinoff_prover]
#[verifier::rlimit(100)]
fn rescue_lit_5(i: usize) -> (s: &'static str)
    requires
        20 <= i < 24,
    ensures
        s@.len() >= 1,
        digits_pfx(s@, s@.len() as int),
        dec_val_chars(s@, s@.len() as int) == std_rescue_c(i as int),
        std_rescue_c(i as int) < p_val(),
{
    proof {
        reveal_with_fuel(digits_pfx, 80);
        reveal_with_fuel(dec_val_chars, 80);
    }
    if i == 20 {
        let s = "25192733271269000031278313438764703304293505356764019300933833584278095057211";
        proof {
            reveal_strlit("25192733271269000031278313438764703304293505356764019300933833584278095057211");
            assert(digits_pfx(s@, 77) && dec_val_chars(s@, 77) == std_rescue_c(20));
        }
        s
    } else if i == 21 {
        let s = "51449973959999043781013692277642864865788635636442612709446611274677398875715";
        proof {
            reveal_strlit("51449973959999043781013692277642864865788635636442612709446611274677398875715");
            assert(digits_pfx(s@, 77) && dec_val_chars(s@, 77) == std_rescue_c(21));
        }
        s
    } else if i == 22 {
        let s = "7335113001153546988973758758642349543575276014251270978519899059245031076651";
        proof {
            reveal_strlit("7335113001153546988973758758642349543575276014251270978519899059245031076651");
            assert(digits_pfx(s@, 76) && dec_val_chars(s@, 76) == std_rescue_c(22));
        }
        s
    } else {
        let s = "38071662158091447967518913580232801247205163003871086365540004964717937594515";
        proof {
            reveal_strlit("38071662158091447967518913580232801247205163003871086365540004964717937594515");
            assert(digits_pfx(s@, 77) && dec_val_chars(s@, 77) == std_rescue_c(23));
        }
        s
    }
}

/// The `i`-th Rescue-Prime constant literal: a canonical decimal numeral
/// whose value is the documented table entry.
fn rescue_lit(i: usize) -> (s: &'static str)
    requires
        i < 24,
    ensures
        s@.len() >= 1,
        digits_pfx(s@, s@.len() as int),
        dec_val_chars(s@, s@.len() as int) == std_rescue_c(i as int),
        std_rescue_c(i as int) < p_val(),
{
    if i < 4 {
        rescue_lit_0(i)
    } else if i < 8 {
        rescue_lit_1(i)
    } else if i < 12 {
        rescue_lit_2(i)
    } else if i < 16 {
        rescue_lit_3(i)
    } else if i < 20 {
        rescue_lit_4(i)
    } else {
        rescue_lit_5(i)
    }
}

/// The inverse-exponent literal, proved equal to the documented value.
#[verifier::spinoff_prover]
#[verifier::rlimit(100)]
fn alpha_inv_lit() -> (s: &'static str)
    ensures
        s@.len() >= 1,
        digits_pfx(s@, s@.len() as int),
        dec_val_chars(s@, s@.len() as int) == std_alpha_inv(),
        std_alpha_inv() < p_val(),
{
    proof {
        reveal_with_fuel(digits_pfx, 80);
        reveal_with_fuel(dec_val_chars, 80);
    }
    let s = "20974350070050476191779096203274386335076221000211055129041463479975432473805";
    proof {
        reveal_strlit("20974350070050476191779096203274386335076221000211055129041463479975432473805");
        assert(digits_pfx(s@, 77) && dec_val_chars(s@, 77) == std_alpha_inv());
    }
    s
}

/// Parse a table of decimal literals into field elements. Fails exactly when
/// some literal is not a nonempty digit string with a canonical value.
pub fn parse_fe_table(strs: &Vec<&str>) -> (r: Result<Vec<Fe>, SpecError>)
    ensures
        match r {
            Ok(v) => v@.len() == strs@.len() && (forall|i: int|
                0 <= i < v@.len() ==> (#[trigger] v@[i]).wf() && v@[i]@ == dec_val(
                    strs@[i].spec_bytes(),
                )),
            Err(SpecError::MalformedLiteral) => exists|i: int|
                0 <= i < strs@.len() && !(dec_str_ok((#[trigger] strs@[i]).spec_bytes())
                    && dec_val(strs@[i].spec_bytes()) < p_val()),
            Err(_) => false,
        },
{
    let mut v: Vec<Fe> = Vec::new();
    let mut i: usize = 0;
    while i < strs.len()
        invariant
            i <= strs@.len(),
            v@.len() == i,
            forall|j: int|
                0 <= j < i ==> (#[trigger] v@[j]).wf() && v@[j]@ == dec_val(
                    strs@[j].spec_bytes(),
                ),
        decreases strs@.len() - i,
    {
        match fe_from_decimal(strs[i]) {
            Some(f) => {
                v.push(f);
            },
            None => {
                return Err(SpecError::MalformedLiteral);
            },
        }
        i = i + 1;
    }
    Ok(v)
}

/// The shared 3x3 MDS matrix, parsed from its nine documented decimal
/// literals. Every literal is a canonical field element, so construction
/// always succeeds, and each entry carries its documented value; both
/// specifications are fed this same matrix.
pub fn standard_mds() -> (r: Result<Mds, SpecError>)
    ensures
        match r {
            Ok(m) => m.wf() && m@ == std_mds_v(),
            Err(_) => false,
        },
{
    let mut es: Vec<Fe> = Vec::new();
    let mut i: usize = 0;
    while i < 9
        invariant
            i <= 9,
            es@.len() == i,
            forall|j: int| 0 <= j < i ==> (#[trigger] es@[j]).wf() && es@[j]@ == std_mds_c(j),
        decreases 9 - i,
    {
        let s = mds_lit(i);
        proof {
            lemma_dec_lit(s, std_mds_c(i as int));
        }
        match fe_from_decimal(s) {
            Some(f) => {
                es.push(f);
            },
            None => {
                proof {
                    assert(false);
                }
            },
        }
        i = i + 1;
    }
    let m22 = es.pop().unwrap();
    let m21 = es.pop().unwrap();
    let m20 = es.pop().unwrap();
    let m12 = es.pop().unwrap();
    let m11 = es.pop().unwrap();
    let m10 = es.pop().unwrap();
    let m02 = es.pop().unwrap();
    let m01 = es.pop().unwrap();
    let m00 = es.pop().unwrap();
    Ok(Mds { m00, m01, m02, m10, m11, m12, m20, m21, m22 })
}

/// The standard Poseidon specification: 8 full rounds, 57 partial rounds,
/// S-box exponent 5, the 195-entry documented constant table, and the shared
/// MDS matrix. Every literal is a canonical field element, so construction
/// always succeeds, and the contract pins each constant and matrix entry to
/// its documented value.
pub fn standard_poseidon_spec() -> (r: Result<PoseidonSpec, SpecError>)
    ensures
        match r {
            Ok(s) => s.wf() && s.full_rounds == 8 && s.partial_rounds == 57 && s.alpha == 5
                && s@.cs == std_pose_cs() && s@.m == std_mds_v(),
            Err(_) => false,
        },
{
    let mut constants: Vec<Fe> = Vec::new();
    let mut i: usize = 0;
    while i < 195
        invariant
            i <= 195,
            constants@.len() == i,
            forall|j: int|
                0 <= j < i ==> (#[trigger] constants@[j]).wf() && constants@[j]@ == std_pose_c(j),
        decreases 195 - i,
    {
        let s = pose_lit(i);
        proof {
            lemma_dec_lit(s, std_pose_c(i as int));
        }
        match fe_from_decimal(s) {
            Some(f) => {
                constants.push(f);
            },
            None => {
                proof {
                    assert(false);
                }
            },
        }
        i = i + 1;
    }
    let mds = match standard_mds() {
        Ok(m) => m,
        Err(_) => {
            proof {
                assert(false);
            }
            return Err(SpecError::MalformedLiteral);
        },
    };
    match PoseidonSpec::new(8, 57, 5, constants, mds) {
        Ok(s) => {
            proof {
                assert(s@.cs =~= std_pose_cs());
            }
            Ok(s)
        },
        Err(_) => {
            proof {
                assert(false);
            }
            Err(SpecError::TableLength)
        },
    }
}

/// The standard Rescue-Prime specification: 4 rounds, S-box exponent 5 with
/// its documented inverse exponent modulo the group order, the 24-entry
/// documented constant table, and the shared MDS matrix. Every literal is a
/// canonical field element and the exponent pairing holds, so construction
/// always succeeds, and the contract pins each constant, the matrix and the
/// inverse exponent to their documented values.
pub fn standard_rescue_spec() -> (r: Result<RescueSpec, SpecError>)
    ensures
        match r {
            Ok(s) => s.wf() && s.rounds == 4 && s.alpha == 5 && s@.e == std_alpha_inv()
                && s@.cs == std_rescue_cs() && s@.m == std_mds_v(),
            Err(_) => false,
        },
{
    let mut constants: Vec<Fe> = Vec::new();
    let mut i: usize = 0;
    while i < 24
        invariant
            i <= 24,
            constants@.len() == i,
            forall|j: int|
                0 <= j < i ==> (#[trigger] constants@[j]).wf() && constants@[j]@ == std_rescue_c(
                    j,
                ),
        decreases 24 - i,
    {
        let s = rescue_lit(i);
        proof {
            lemma_dec_lit(s, std_rescue_c(i as int));
        }
        match fe_from_decimal(s) {
            Some(f) => {
                constants.push(f);
            },
            None => {
                proof {
                    assert(false);
                }
            },
        }
        i = i + 1;
    }
    let mds = match standard_mds() {
        Ok(m) => m,
        Err(_) => {
            proof {
                assert(false);
            }
            return Err(SpecError::MalformedLiteral);
        },
    };
    let sinv = alpha_inv_lit();
    proof {
        lemma_dec_lit(sinv, std_alpha_inv());
    }
    let inv = match fe_from_decimal(sinv) {
        Some(f) => f,
        None => {
            proof {
                assert(false);
            }
            return Err(SpecError::MalformedLiteral);
        },
    };
    proof {
        lemma_fundamental_div_mod_converse(
            (5 * std_alpha_inv()) as int,
            (p_val() - 1) as int,
            2,
            1,
        );
    }
    match RescueSpec::new(4, 5, inv.d, constants, mds) {
        Ok(s) => {
            proof {
                assert(s@.cs =~= std_rescue_cs());
            }
            Ok(s)
        },
        Err(_) => {
            proof {
                assert(false);
            }
            Err(SpecError::AlphaPairing)
        },
    }
}

} // verus!
