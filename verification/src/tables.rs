//! The precomputed trigonometric lookup tables: immutable constant data that
//! the angle routines index into, kept separate from the logic that reads it.
//!
//! The fine-sine table holds the sine of each of 8192 "fine angles" spanning
//! the circle, scaled by 65536 and truncated, plus a quarter turn (2048
//! entries) of overlap so that cosine can read the same table at an offset.
//! Entries for the second half-circle (indices 4096 through 8191) are
//! negative; the data is stored as magnitudes in fixed chunks of 1024, and
//! the accessor restores the sign from the index.
//!
//! The tan-to-angle table maps a first-octant slope, scaled so that 2048 is a
//! slope of one, to the corresponding angle in 2^32-per-turn units.
//!
//! The spec functions `fine_sine_spec` and `tan_to_angle_spec` are
//! deliberately `closed`: to the rest of the library the table contents are
//! opaque fixed data, and every contract that mentions an entry does so only
//! through these names.

use vstd::prelude::*;

verus! {

/// Number of entries in the sine table: 8192 fine angles plus a quarter turn.
pub const FINE_SINE_LEN: usize = 10240;

/// Number of entries in the slope table: slopes 0 through 2048 inclusive.
pub const TAN_TO_ANGLE_LEN: usize = 2049;

spec fn fs_mag(i: int) -> u16 {
    if i < 1024 {
        FINE_SINE_MAG_0[i]
    } else if i < 2048 {
        FINE_SINE_MAG_1[i - 1024]
    } else if i < 3072 {
        FINE_SINE_MAG_2[i - 2048]
    } else if i < 4096 {
        FINE_SINE_MAG_3[i - 3072]
    } else if i < 5120 {
        FINE_SINE_MAG_4[i - 4096]
    } else if i < 6144 {
        FINE_SINE_MAG_5[i - 5120]
    } else if i < 7168 {
        FINE_SINE_MAG_6[i - 6144]
    } else if i < 8192 {
        FINE_SINE_MAG_7[i - 7168]
    } else if i < 9216 {
        FINE_SINE_MAG_8[i - 8192]
    } else {
        FINE_SINE_MAG_9[i - 9216]
    }
}

/// The sine table entry at index `i`, as opaque fixed data.
pub closed spec fn fine_sine_spec(i: int) -> i32 {
    if 4096 <= i < 8192 {
        (-(fs_mag(i) as int)) as i32
    } else {
        fs_mag(i) as i32
    }
}

/// The slope table entry at index `i`, as opaque fixed data.
pub closed spec fn tan_to_angle_spec(i: int) -> u32 {
    if i < 1024 {
        TAN_TO_ANGLE_0[i]
    } else if i < 2048 {
        TAN_TO_ANGLE_1[i - 1024]
    } else {
        TAN_TO_ANGLE_2[i - 2048]
    }
}

fn fine_sine_mag(i: usize) -> (r: u16)
    requires
        i < 10240,
    ensures
        r == fs_mag(i as int),
{
    if i < 1024 {
        FINE_SINE_MAG_0[i]
    } else if i < 2048 {
        FINE_SINE_MAG_1[i - 1024]
    } else if i < 3072 {
        FINE_SINE_MAG_2[i - 2048]
    } else if i < 4096 {
        FINE_SINE_MAG_3[i - 3072]
    } else if i < 5120 {
        FINE_SINE_MAG_4[i - 4096]
    } else if i < 6144 {
        FINE_SINE_MAG_5[i - 5120]
    } else if i < 7168 {
        FINE_SINE_MAG_6[i - 6144]
    } else if i < 8192 {
        FINE_SINE_MAG_7[i - 7168]
    } else if i < 9216 {
        FINE_SINE_MAG_8[i - 8192]
    } else {
        FINE_SINE_MAG_9[i - 9216]
    }
}

/// Reads the sine table.
pub fn fine_sine(i: usize) -> (r: i32)
    requires
        i < FINE_SINE_LEN,
    ensures
        r == fine_sine_spec(i as int),
{
    let m = fine_sine_mag(i);
    if 4096 <= i && i < 8192 {
        -(m as i32)
    } else {
        m as i32
    }
}

/// Reads the slope table.
pub fn tan_to_angle(i: usize) -> (r: u32)
    requires
        i < TAN_TO_ANGLE_LEN,
    ensures
        r == tan_to_angle_spec(i as int),
{
    if i < 1024 {
        TAN_TO_ANGLE_0[i]
    } else if i < 2048 {
        TAN_TO_ANGLE_1[i - 1024]
    } else {
        TAN_TO_ANGLE_2[i - 2048]
    }
}

const FINE_SINE_MAG_0: [u16; 1024] = [
    25, 75, 125, 175, 226, 276, 326, 376, 427, 477, 527, 578,
    628, 678, 728, 779, 829, 879, 929, 980, 1030, 1080, 1130, 1181,
    1231, 1281, 1331, 1382, 1432, 1482, 1532, 1583, 1633, 1683, 1733, 1784,
    1834, 1884, 1934, 1985, 2035, 2085, 2135, 2186, 2236, 2286, 2336, 2387,
    2437, 2487, 2537, 2587, 2638, 2688, 2738, 2788, 2839, 2889, 2939, 2989,
    3039, 3090, 3140, 3190, 3240, 3291, 3341, 3391, 3441, 3491, 3541, 3592,
    3642, 3692, 3742, 3792, 3843, 3893, 3943, 3993, 4043, 4093, 4144, 4194,
    4244, 4294, 4344, 4394, 4445, 4495, 4545, 4595, 4645, 4695, 4745, 4796,
    4846, 4896, 4946, 4996, 5046, 5096, 5146, 5197, 5247, 5297, 5347, 5397,
    5447, 5497, 5547, 5597, 5647, 5697, 5748, 5798, 5848, 5898, 5948, 5998,
    6048, 6098, 6148, 6198, 6248, 6298, 6348, 6398, 6448, 6498, 6548, 6598,
    6648, 6698, 6748, 6798, 6848, 6898, 6948, 6998, 7048, 7098, 7148, 7198,
    7248, 7298, 7348, 7398, 7448, 7498, 7548, 7598, 7648, 7697, 7747, 7797,
    7847, 7897, 7947, 7997, 8047, 8097, 8147, 8196, 8246, 8296, 8346, 8396,
    8446, 8496, 8545, 8595, 8645, 8695, 8745, 8794, 8844, 8894, 8944, 8994,
    9043, 9093, 9143, 9193, 9243, 9292, 9342, 9392, 9442, 9491, 9541, 9591,
    9640, 9690, 9740, 9790, 9839, 9889, 9939, 9988, 10038, 10088, 10137, 10187,
    10237, 10286, 10336, 10386, 10435, 10485, 10534, 10584, 10634, 10683, 10733, 10782,
    10832, 10882, 10931, 10981, 11030, 11080, 11129, 11179, 11228, 11278, 11327, 11377,
    11426, 11476, 11525, 11575, 11624, 11674, 11723, 11773, 11822, 11872, 11921, 11970,
    12020, 12069, 12119, 12168, 12218, 12267, 12316, 12366, 12415, 12464, 12514, 12563,
    12612, 12662, 12711, 12760, 12810, 12859, 12908, 12957, 13007, 13056, 13105, 13154,
    13204, 13253, 13302, 13351, 13401, 13450, 13499, 13548, 13597, 13647, 13696, 13745,
    13794, 13843, 13892, 13941, 13990, 14040, 14089, 14138, 14187, 14236, 14285, 14334,
    14383, 14432, 14481, 14530, 14579, 14628, 14677, 14726, 14775, 14824, 14873, 14922,
    14971, 15020, 15069, 15118, 15167, 15215, 15264, 15313, 15362, 15411, 15460, 15509,
    15557, 15606, 15655, 15704, 15753, 15802, 15850, 15899, 15948, 15997, 16045, 16094,
    16143, 16191, 16240, 16289, 16338, 16386, 16435, 16484, 16532, 16581, 16629, 16678,
    16727, 16775, 16824, 16872, 16921, 16970, 17018, 17067, 17115, 17164, 17212, 17261,
    17309, 17358, 17406, 17455, 17503, 17551, 17600, 17648, 17697, 17745, 17793, 17842,
    17890, 17939, 17987, 18035, 18084, 18132, 18180, 18228, 18277, 18325, 18373, 18421,
    18470, 18518, 18566, 18614, 18663, 18711, 18759, 18807, 18855, 18903, 18951, 19000,
    19048, 19096, 19144, 19192, 19240, 19288, 19336, 19384, 19432, 19480, 19528, 19576,
    19624, 19672, 19720, 19768, 19816, 19864, 19912, 19959, 20007, 20055, 20103, 20151,
    20199, 20246, 20294, 20342, 20390, 20438, 20485, 20533, 20581, 20629, 20676, 20724,
    20772, 20819, 20867, 20915, 20962, 21010, 21057, 21105, 21153, 21200, 21248, 21295,
    21343, 21390, 21438, 21485, 21533, 21580, 21628, 21675, 21723, 21770, 21817, 21865,
    21912, 21960, 22007, 22054, 22102, 22149, 22196, 22243, 22291, 22338, 22385, 22432,
    22480, 22527, 22574, 22621, 22668, 22716, 22763, 22810, 22857, 22904, 22951, 22998,
    23045, 23092, 23139, 23186, 23233, 23280, 23327, 23374, 23421, 23468, 23515, 23562,
    23609, 23656, 23703, 23750, 23796, 23843, 23890, 23937, 23984, 24030, 24077, 24124,
    24171, 24217, 24264, 24311, 24357, 24404, 24451, 24497, 24544, 24591, 24637, 24684,
    24730, 24777, 24823, 24870, 24916, 24963, 25009, 25056, 25102, 25149, 25195, 25241,
    25288, 25334, 25381, 25427, 25473, 25520, 25566, 25612, 25658, 25705, 25751, 25797,
    25843, 25889, 25936, 25982, 26028, 26074, 26120, 26166, 26212, 26258, 26304, 26350,
    26396, 26442, 26488, 26534, 26580, 26626, 26672, 26718, 26764, 26810, 26856, 26902,
    26947, 26993, 27039, 27085, 27131, 27176, 27222, 27268, 27313, 27359, 27405, 27450,
    27496, 27542, 27587, 27633, 27678, 27724, 27770, 27815, 27861, 27906, 27952, 27997,
    28042, 28088, 28133, 28179, 28224, 28269, 28315, 28360, 28405, 28451, 28496, 28541,
    28586, 28632, 28677, 28722, 28767, 28812, 28858, 28903, 28948, 28993, 29038, 29083,
    29128, 29173, 29218, 29263, 29308, 29353, 29398, 29443, 29488, 29533, 29577, 29622,
    29667, 29712, 29757, 29801, 29846, 29891, 29936, 29980, 30025, 30070, 30114, 30159,
    30204, 30248, 30293, 30337, 30382, 30426, 30471, 30515, 30560, 30604, 30649, 30693,
    30738, 30782, 30826, 30871, 30915, 30959, 31004, 31048, 31092, 31136, 31181, 31225,
    31269, 31313, 31357, 31402, 31446, 31490, 31534, 31578, 31622, 31666, 31710, 31754,
    31798, 31842, 31886, 31930, 31974, 32017, 32061, 32105, 32149, 32193, 32236, 32280,
    32324, 32368, 32411, 32455, 32499, 32542, 32586, 32630, 32673, 32717, 32760, 32804,
    32847, 32891, 32934, 32978, 33021, 33065, 33108, 33151, 33195, 33238, 33281, 33325,
    33368, 33411, 33454, 33498, 33541, 33584, 33627, 33670, 33713, 33756, 33799, 33843,
    33886, 33929, 33972, 34015, 34057, 34100, 34143, 34186, 34229, 34272, 34315, 34358,
    34400, 34443, 34486, 34529, 34571, 34614, 34657, 34699, 34742, 34785, 34827, 34870,
    34912, 34955, 34997, 35040, 35082, 35125, 35167, 35210, 35252, 35294, 35337, 35379,
    35421, 35464, 35506, 35548, 35590, 35633, 35675, 35717, 35759, 35801, 35843, 35885,
    35927, 35969, 36011, 36053, 36095, 36137, 36179, 36221, 36263, 36305, 36347, 36388,
    36430, 36472, 36514, 36555, 36597, 36639, 36681, 36722, 36764, 36805, 36847, 36889,
    36930, 36972, 37013, 37055, 37096, 37137, 37179, 37220, 37262, 37303, 37344, 37386,
    37427, 37468, 37509, 37551, 37592, 37633, 37674, 37715, 37756, 37797, 37838, 37879,
    37920, 37961, 38002, 38043, 38084, 38125, 38166, 38207, 38248, 38288, 38329, 38370,
    38411, 38451, 38492, 38533, 38573, 38614, 38655, 38695, 38736, 38776, 38817, 38857,
    38898, 38938, 38979, 39019, 39059, 39100, 39140, 39180, 39221, 39261, 39301, 39341,
    39382, 39422, 39462, 39502, 39542, 39582, 39622, 39662, 39702, 39742, 39782, 39822,
    39862, 39902, 39942, 39982, 40021, 40061, 40101, 40141, 40180, 40220, 40260, 40300,
    40339, 40379, 40418, 40458, 40497, 40537, 40576, 40616, 40655, 40695, 40734, 40773,
    40813, 40852, 40891, 40931, 40970, 41009, 41048, 41087, 41127, 41166, 41205, 41244,
    41283, 41322, 41361, 41400, 41439, 41478, 41517, 41556, 41595, 41633, 41672, 41711,
    41750, 41788, 41827, 41866, 41904, 41943, 41982, 42020, 42059, 42097, 42136, 42174,
    42213, 42251, 42290, 42328, 42366, 42405, 42443, 42481, 42520, 42558, 42596, 42634,
    42672, 42711, 42749, 42787, 42825, 42863, 42901, 42939, 42977, 43015, 43053, 43091,
    43128, 43166, 43204, 43242, 43280, 43317, 43355, 43393, 43430, 43468, 43506, 43543,
    43581, 43618, 43656, 43693, 43731, 43768, 43806, 43843, 43880, 43918, 43955, 43992,
    44029, 44067, 44104, 44141, 44178, 44215, 44252, 44289, 44326, 44363, 44400, 44437,
    44474, 44511, 44548, 44585, 44622, 44659, 44695, 44732, 44769, 44806, 44842, 44879,
    44915, 44952, 44989, 45025, 45062, 45098, 45135, 45171, 45207, 45244, 45280, 45316,
    45353, 45389, 45425, 45462, 45498, 45534, 45570, 45606, 45642, 45678, 45714, 45750,
    45786, 45822, 45858, 45894, 45930, 45966, 46002, 46037, 46073, 46109, 46145, 46180,
    46216, 46252, 46287, 46323,
];

const FINE_SINE_MAG_1: [u16; 1024] = [
    46358, 46394, 46429, 46465, 46500, 46536, 46571, 46606, 46642, 46677, 46712, 46747,
    46783, 46818, 46853, 46888, 46923, 46958, 46993, 47028, 47063, 47098, 47133, 47168,
    47203, 47238, 47273, 47308, 47342, 47377, 47412, 47446, 47481, 47516, 47550, 47585,
    47619, 47654, 47688, 47723, 47757, 47792, 47826, 47860, 47895, 47929, 47963, 47998,
    48032, 48066, 48100, 48134, 48168, 48202, 48237, 48271, 48304, 48338, 48372, 48406,
    48440, 48474, 48508, 48542, 48575, 48609, 48643, 48676, 48710, 48744, 48777, 48811,
    48844, 48878, 48911, 48945, 48978, 49012, 49045, 49078, 49112, 49145, 49178, 49211,
    49244, 49278, 49311, 49344, 49377, 49410, 49443, 49476, 49509, 49542, 49575, 49608,
    49640, 49673, 49706, 49739, 49771, 49804, 49837, 49869, 49902, 49935, 49967, 50000,
    50032, 50065, 50097, 50129, 50162, 50194, 50226, 50259, 50291, 50323, 50355, 50387,
    50420, 50452, 50484, 50516, 50548, 50580, 50612, 50644, 50675, 50707, 50739, 50771,
    50803, 50834, 50866, 50898, 50929, 50961, 50993, 51024, 51056, 51087, 51119, 51150,
    51182, 51213, 51244, 51276, 51307, 51338, 51369, 51401, 51432, 51463, 51494, 51525,
    51556, 51587, 51618, 51649, 51680, 51711, 51742, 51773, 51803, 51834, 51865, 51896,
    51926, 51957, 51988, 52018, 52049, 52079, 52110, 52140, 52171, 52201, 52231, 52262,
    52292, 52322, 52353, 52383, 52413, 52443, 52473, 52503, 52534, 52564, 52594, 52624,
    52653, 52683, 52713, 52743, 52773, 52803, 52832, 52862, 52892, 52922, 52951, 52981,
    53010, 53040, 53069, 53099, 53128, 53158, 53187, 53216, 53246, 53275, 53304, 53334,
    53363, 53392, 53421, 53450, 53479, 53508, 53537, 53566, 53595, 53624, 53653, 53682,
    53711, 53739, 53768, 53797, 53826, 53854, 53883, 53911, 53940, 53969, 53997, 54026,
    54054, 54082, 54111, 54139, 54167, 54196, 54224, 54252, 54280, 54308, 54337, 54365,
    54393, 54421, 54449, 54477, 54505, 54533, 54560, 54588, 54616, 54644, 54672, 54699,
    54727, 54755, 54782, 54810, 54837, 54865, 54892, 54920, 54947, 54974, 55002, 55029,
    55056, 55084, 55111, 55138, 55165, 55192, 55219, 55246, 55274, 55300, 55327, 55354,
    55381, 55408, 55435, 55462, 55489, 55515, 55542, 55569, 55595, 55622, 55648, 55675,
    55701, 55728, 55754, 55781, 55807, 55833, 55860, 55886, 55912, 55938, 55965, 55991,
    56017, 56043, 56069, 56095, 56121, 56147, 56173, 56199, 56225, 56250, 56276, 56302,
    56328, 56353, 56379, 56404, 56430, 56456, 56481, 56507, 56532, 56557, 56583, 56608,
    56633, 56659, 56684, 56709, 56734, 56760, 56785, 56810, 56835, 56860, 56885, 56910,
    56935, 56959, 56984, 57009, 57034, 57059, 57083, 57108, 57133, 57157, 57182, 57206,
    57231, 57255, 57280, 57304, 57329, 57353, 57377, 57402, 57426, 57450, 57474, 57498,
    57522, 57546, 57570, 57594, 57618, 57642, 57666, 57690, 57714, 57738, 57762, 57785,
    57809, 57833, 57856, 57880, 57903, 57927, 57950, 57974, 57997, 58021, 58044, 58067,
    58091, 58114, 58137, 58160, 58183, 58207, 58230, 58253, 58276, 58299, 58322, 58345,
    58367, 58390, 58413, 58436, 58459, 58481, 58504, 58527, 58549, 58572, 58594, 58617,
    58639, 58662, 58684, 58706, 58729, 58751, 58773, 58795, 58818, 58840, 58862, 58884,
    58906, 58928, 58950, 58972, 58994, 59016, 59038, 59059, 59081, 59103, 59125, 59146,
    59168, 59190, 59211, 59233, 59254, 59276, 59297, 59318, 59340, 59361, 59382, 59404,
    59425, 59446, 59467, 59488, 59509, 59530, 59551, 59572, 59593, 59614, 59635, 59656,
    59677, 59697, 59718, 59739, 59759, 59780, 59801, 59821, 59842, 59862, 59883, 59903,
    59923, 59944, 59964, 59984, 60004, 60025, 60045, 60065, 60085, 60105, 60125, 60145,
    60165, 60185, 60205, 60225, 60244, 60264, 60284, 60304, 60323, 60343, 60363, 60382,
    60402, 60421, 60441, 60460, 60479, 60499, 60518, 60537, 60556, 60576, 60595, 60614,
    60633, 60652, 60671, 60690, 60709, 60728, 60747, 60766, 60785, 60803, 60822, 60841,
    60859, 60878, 60897, 60915, 60934, 60952, 60971, 60989, 61007, 61026, 61044, 61062,
    61081, 61099, 61117, 61135, 61153, 61171, 61189, 61207, 61225, 61243, 61261, 61279,
    61297, 61314, 61332, 61350, 61367, 61385, 61403, 61420, 61438, 61455, 61473, 61490,
    61507, 61525, 61542, 61559, 61577, 61594, 61611, 61628, 61645, 61662, 61679, 61696,
    61713, 61730, 61747, 61764, 61780, 61797, 61814, 61831, 61847, 61864, 61880, 61897,
    61913, 61930, 61946, 61963, 61979, 61995, 62012, 62028, 62044, 62060, 62076, 62092,
    62108, 62125, 62141, 62156, 62172, 62188, 62204, 62220, 62236, 62251, 62267, 62283,
    62298, 62314, 62329, 62345, 62360, 62376, 62391, 62407, 62422, 62437, 62453, 62468,
    62483, 62498, 62513, 62528, 62543, 62558, 62573, 62588, 62603, 62618, 62633, 62648,
    62662, 62677, 62692, 62706, 62721, 62735, 62750, 62764, 62779, 62793, 62808, 62822,
    62836, 62850, 62865, 62879, 62893, 62907, 62921, 62935, 62949, 62963, 62977, 62991,
    63005, 63019, 63032, 63046, 63060, 63074, 63087, 63101, 63114, 63128, 63141, 63155,
    63168, 63182, 63195, 63208, 63221, 63235, 63248, 63261, 63274, 63287, 63300, 63313,
    63326, 63339, 63352, 63365, 63378, 63390, 63403, 63416, 63429, 63441, 63454, 63466,
    63479, 63491, 63504, 63516, 63528, 63541, 63553, 63565, 63578, 63590, 63602, 63614,
    63626, 63638, 63650, 63662, 63674, 63686, 63698, 63709, 63721, 63733, 63745, 63756,
    63768, 63779, 63791, 63803, 63814, 63825, 63837, 63848, 63859, 63871, 63882, 63893,
    63904, 63915, 63927, 63938, 63949, 63960, 63971, 63981, 63992, 64003, 64014, 64025,
    64035, 64046, 64057, 64067, 64078, 64088, 64099, 64109, 64120, 64130, 64140, 64151,
    64161, 64171, 64181, 64192, 64202, 64212, 64222, 64232, 64242, 64252, 64261, 64271,
    64281, 64291, 64301, 64310, 64320, 64330, 64339, 64349, 64358, 64368, 64377, 64387,
    64396, 64405, 64414, 64424, 64433, 64442, 64451, 64460, 64469, 64478, 64487, 64496,
    64505, 64514, 64523, 64532, 64540, 64549, 64558, 64566, 64575, 64584, 64592, 64601,
    64609, 64617, 64626, 64634, 64642, 64651, 64659, 64667, 64675, 64683, 64691, 64699,
    64707, 64715, 64723, 64731, 64739, 64747, 64754, 64762, 64770, 64777, 64785, 64793,
    64800, 64808, 64815, 64822, 64830, 64837, 64844, 64852, 64859, 64866, 64873, 64880,
    64887, 64895, 64902, 64908, 64915, 64922, 64929, 64936, 64943, 64949, 64956, 64963,
    64969, 64976, 64982, 64989, 64995, 65002, 65008, 65015, 65021, 65027, 65033, 65040,
    65046, 65052, 65058, 65064, 65070, 65076, 65082, 65088, 65094, 65099, 65105, 65111,
    65117, 65122, 65128, 65133, 65139, 65144, 65150, 65155, 65161, 65166, 65171, 65177,
    65182, 65187, 65192, 65197, 65202, 65207, 65212, 65217, 65222, 65227, 65232, 65237,
    65242, 65246, 65251, 65256, 65260, 65265, 65270, 65274, 65279, 65283, 65287, 65292,
    65296, 65300, 65305, 65309, 65313, 65317, 65321, 65325, 65329, 65333, 65337, 65341,
    65345, 65349, 65352, 65356, 65360, 65363, 65367, 65371, 65374, 65378, 65381, 65385,
    65388, 65391, 65395, 65398, 65401, 65404, 65408, 65411, 65414, 65417, 65420, 65423,
    65426, 65429, 65431, 65434, 65437, 65440, 65442, 65445, 65448, 65450, 65453, 65455,
    65458, 65460, 65463, 65465, 65467, 65470, 65472, 65474, 65476, 65478, 65480, 65482,
    65484, 65486, 65488, 65490, 65492, 65494, 65496, 65497, 65499, 65501, 65502, 65504,
    65505, 65507, 65508, 65510, 65511, 65513, 65514, 65515, 65516, 65518, 65519, 65520,
    65521, 65522, 65523, 65524, 65525, 65526, 65527, 65527, 65528, 65529, 65530, 65530,
    65531, 65531, 65532, 65532, 65533, 65533, 65534, 65534, 65534, 65535, 65535, 65535,
    65535, 65535, 65535, 65535,
];

const FINE_SINE_MAG_2: [u16; 1024] = [
    65535, 65535, 65535, 65535, 65535, 65535, 65535, 65534, 65534, 65534, 65533, 65533,
    65532, 65532, 65531, 65531, 65530, 65530, 65529, 65528, 65527, 65527, 65526, 65525,
    65524, 65523, 65522, 65521, 65520, 65519, 65518, 65516, 65515, 65514, 65513, 65511,
    65510, 65508, 65507, 65505, 65504, 65502, 65501, 65499, 65497, 65496, 65494, 65492,
    65490, 65488, 65486, 65484, 65482, 65480, 65478, 65476, 65474, 65472, 65470, 65467,
    65465, 65463, 65460, 65458, 65455, 65453, 65450, 65448, 65445, 65442, 65440, 65437,
    65434, 65431, 65429, 65426, 65423, 65420, 65417, 65414, 65411, 65408, 65404, 65401,
    65398, 65395, 65391, 65388, 65385, 65381, 65378, 65374, 65371, 65367, 65363, 65360,
    65356, 65352, 65349, 65345, 65341, 65337, 65333, 65329, 65325, 65321, 65317, 65313,
    65309, 65305, 65300, 65296, 65292, 65287, 65283, 65279, 65274, 65270, 65265, 65260,
    65256, 65251, 65246, 65242, 65237, 65232, 65227, 65222, 65217, 65212, 65207, 65202,
    65197, 65192, 65187, 65182, 65177, 65171, 65166, 65161, 65155, 65150, 65144, 65139,
    65133, 65128, 65122, 65117, 65111, 65105, 65099, 65094, 65088, 65082, 65076, 65070,
    65064, 65058, 65052, 65046, 65040, 65033, 65027, 65021, 65015, 65008, 65002, 64995,
    64989, 64982, 64976, 64969, 64963, 64956, 64949, 64943, 64936, 64929, 64922, 64915,
    64908, 64902, 64895, 64887, 64880, 64873, 64866, 64859, 64852, 64844, 64837, 64830,
    64822, 64815, 64808, 64800, 64793, 64785, 64777, 64770, 64762, 64754, 64747, 64739,
    64731, 64723, 64715, 64707, 64699, 64691, 64683, 64675, 64667, 64659, 64651, 64642,
    64634, 64626, 64617, 64609, 64601, 64592, 64584, 64575, 64566, 64558, 64549, 64540,
    64532, 64523, 64514, 64505, 64496, 64487, 64478, 64469, 64460, 64451, 64442, 64433,
    64424, 64414, 64405, 64396, 64387, 64377, 64368, 64358, 64349, 64339, 64330, 64320,
    64310, 64301, 64291, 64281, 64271, 64261, 64252, 64242, 64232, 64222, 64212, 64202,
    64192, 64181, 64171, 64161, 64151, 64140, 64130, 64120, 64109, 64099, 64088, 64078,
    64067, 64057, 64046, 64035, 64025, 64014, 64003, 63992, 63981, 63971, 63960, 63949,
    63938, 63927, 63915, 63904, 63893, 63882, 63871, 63859, 63848, 63837, 63825, 63814,
    63803, 63791, 63779, 63768, 63756, 63745, 63733, 63721, 63709, 63698, 63686, 63674,
    63662, 63650, 63638, 63626, 63614, 63602, 63590, 63578, 63565, 63553, 63541, 63528,
    63516, 63504, 63491, 63479, 63466, 63454, 63441, 63429, 63416, 63403, 63390, 63378,
    63365, 63352, 63339, 63326, 63313, 63300, 63287, 63274, 63261, 63248, 63235, 63221,
    63208, 63195, 63182, 63168, 63155, 63141, 63128, 63114, 63101, 63087, 63074, 63060,
    63046, 63032, 63019, 63005, 62991, 62977, 62963, 62949, 62935, 62921, 62907, 62893,
    62879, 62865, 62850, 62836, 62822, 62808, 62793, 62779, 62764, 62750, 62735, 62721,
    62706, 62692, 62677, 62662, 62648, 62633, 62618, 62603, 62588, 62573, 62558, 62543,
    62528, 62513, 62498, 62483, 62468, 62453, 62437, 62422, 62407, 62391, 62376, 62360,
    62345, 62329, 62314, 62298, 62283, 62267, 62251, 62236, 62220, 62204, 62188, 62172,
    62156, 62141, 62125, 62108, 62092, 62076, 62060, 62044, 62028, 62012, 61995, 61979,
    61963, 61946, 61930, 61913, 61897, 61880, 61864, 61847, 61831, 61814, 61797, 61780,
    61764, 61747, 61730, 61713, 61696, 61679, 61662, 61645, 61628, 61611, 61594, 61577,
    61559, 61542, 61525, 61507, 61490, 61473, 61455, 61438, 61420, 61403, 61385, 61367,
    61350, 61332, 61314, 61297, 61279, 61261, 61243, 61225, 61207, 61189, 61171, 61153,
    61135, 61117, 61099, 61081, 61062, 61044, 61026, 61007, 60989, 60971, 60952, 60934,
    60915, 60897, 60878, 60859, 60841, 60822, 60803, 60785, 60766, 60747, 60728, 60709,
    60690, 60671, 60652, 60633, 60614, 60595, 60576, 60556, 60537, 60518, 60499, 60479,
    60460, 60441, 60421, 60402, 60382, 60363, 60343, 60323, 60304, 60284, 60264, 60244,
    60225, 60205, 60185, 60165, 60145, 60125, 60105, 60085, 60065, 60045, 60025, 60004,
    59984, 59964, 59944, 59923, 59903, 59883, 59862, 59842, 59821, 59801, 59780, 59759,
    59739, 59718, 59697, 59677, 59656, 59635, 59614, 59593, 59572, 59551, 59530, 59509,
    59488, 59467, 59446, 59425, 59404, 59382, 59361, 59340, 59318, 59297, 59276, 59254,
    59233, 59211, 59190, 59168, 59146, 59125, 59103, 59081, 59059, 59038, 59016, 58994,
    58972, 58950, 58928, 58906, 58884, 58862, 58840, 58818, 58795, 58773, 58751, 58729,
    58706, 58684, 58662, 58639, 58617, 58594, 58572, 58549, 58527, 58504, 58481, 58459,
    58436, 58413, 58390, 58367, 58345, 58322, 58299, 58276, 58253, 58230, 58207, 58183,
    58160, 58137, 58114, 58091, 58067, 58044, 58021, 57997, 57974, 57950, 57927, 57903,
    57880, 57856, 57833, 57809, 57785, 57762, 57738, 57714, 57690, 57666, 57642, 57618,
    57594, 57570, 57546, 57522, 57498, 57474, 57450, 57426, 57402, 57377, 57353, 57329,
    57304, 57280, 57255, 57231, 57206, 57182, 57157, 57133, 57108, 57083, 57059, 57034,
    57009, 56984, 56959, 56935, 56910, 56885, 56860, 56835, 56810, 56785, 56760, 56734,
    56709, 56684, 56659, 56633, 56608, 56583, 56557, 56532, 56507, 56481, 56456, 56430,
    56404, 56379, 56353, 56328, 56302, 56276, 56250, 56225, 56199, 56173, 56147, 56121,
    56095, 56069, 56043, 56017, 55991, 55965, 55938, 55912, 55886, 55860, 55833, 55807,
    55781, 55754, 55728, 55701, 55675, 55648, 55622, 55595, 55569, 55542, 55515, 55489,
    55462, 55435, 55408, 55381, 55354, 55327, 55300, 55274, 55246, 55219, 55192, 55165,
    55138, 55111, 55084, 55056, 55029, 55002, 54974, 54947, 54920, 54892, 54865, 54837,
    54810, 54782, 54755, 54727, 54699, 54672, 54644, 54616, 54588, 54560, 54533, 54505,
    54477, 54449, 54421, 54393, 54365, 54337, 54308, 54280, 54252, 54224, 54196, 54167,
    54139, 54111, 54082, 54054, 54026, 53997, 53969, 53940, 53911, 53883, 53854, 53826,
    53797, 53768, 53739, 53711, 53682, 53653, 53624, 53595, 53566, 53537, 53508, 53479,
    53450, 53421, 53392, 53363, 53334, 53304, 53275, 53246, 53216, 53187, 53158, 53128,
    53099, 53069, 53040, 53010, 52981, 52951, 52922, 52892, 52862, 52832, 52803, 52773,
    52743, 52713, 52683, 52653, 52624, 52594, 52564, 52534, 52503, 52473, 52443, 52413,
    52383, 52353, 52322, 52292, 52262, 52231, 52201, 52171, 52140, 52110, 52079, 52049,
    52018, 51988, 51957, 51926, 51896, 51865, 51834, 51803, 51773, 51742, 51711, 51680,
    51649, 51618, 51587, 51556, 51525, 51494, 51463, 51432, 51401, 51369, 51338, 51307,
    51276, 51244, 51213, 51182, 51150, 51119, 51087, 51056, 51024, 50993, 50961, 50929,
    50898, 50866, 50834, 50803, 50771, 50739, 50707, 50675, 50644, 50612, 50580, 50548,
    50516, 50484, 50452, 50420, 50387, 50355, 50323, 50291, 50259, 50226, 50194, 50162,
    50129, 50097, 50065, 50032, 50000, 49967, 49935, 49902, 49869, 49837, 49804, 49771,
    49739, 49706, 49673, 49640, 49608, 49575, 49542, 49509, 49476, 49443, 49410, 49377,
    49344, 49311, 49278, 49244, 49211, 49178, 49145, 49112, 49078, 49045, 49012, 48978,
    48945, 48911, 48878, 48844, 48811, 48777, 48744, 48710, 48676, 48643, 48609, 48575,
    48542, 48508, 48474, 48440, 48406, 48372, 48338, 48304, 48271, 48237, 48202, 48168,
    48134, 48100, 48066, 48032, 47998, 47963, 47929, 47895, 47860, 47826, 47792, 47757,
    47723, 47688, 47654, 47619, 47585, 47550, 47516, 47481, 47446, 47412, 47377, 47342,
    47308, 47273, 47238, 47203, 47168, 47133, 47098, 47063, 47028, 46993, 46958, 46923,
    46888, 46853, 46818, 46783, 46747, 46712, 46677, 46642, 46606, 46571, 46536, 46500,
    46465, 46429, 46394, 46358,
];

const FINE_SINE_MAG_3: [u16; 1024] = [
    46323, 46287, 46252, 46216, 46180, 46145, 46109, 46073, 46037, 46002, 45966, 45930,
    45894, 45858, 45822, 45786, 45750, 45714, 45678, 45642, 45606, 45570, 45534, 45498,
    45462, 45425, 45389, 45353, 45316, 45280, 45244, 45207, 45171, 45135, 45098, 45062,
    45025, 44989, 44952, 44915, 44879, 44842, 44806, 44769, 44732, 44695, 44659, 44622,
    44585, 44548, 44511, 44474, 44437, 44400, 44363, 44326, 44289, 44252, 44215, 44178,
    44141, 44104, 44067, 44029, 43992, 43955, 43918, 43880, 43843, 43806, 43768, 43731,
    43693, 43656, 43618, 43581, 43543, 43506, 43468, 43430, 43393, 43355, 43317, 43280,
    43242, 43204, 43166, 43128, 43091, 43053, 43015, 42977, 42939, 42901, 42863, 42825,
    42787, 42749, 42711, 42672, 42634, 42596, 42558, 42520, 42481, 42443, 42405, 42366,
    42328, 42290, 42251, 42213, 42174, 42136, 42097, 42059, 42020, 41982, 41943, 41904,
    41866, 41827, 41788, 41750, 41711, 41672, 41633, 41595, 41556, 41517, 41478, 41439,
    41400, 41361, 41322, 41283, 41244, 41205, 41166, 41127, 41087, 41048, 41009, 40970,
    40931, 40891, 40852, 40813, 40773, 40734, 40695, 40655, 40616, 40576, 40537, 40497,
    40458, 40418, 40379, 40339, 40300, 40260, 40220, 40180, 40141, 40101, 40061, 40021,
    39982, 39942, 39902, 39862, 39822, 39782, 39742, 39702, 39662, 39622, 39582, 39542,
    39502, 39462, 39422, 39382, 39341, 39301, 39261, 39221, 39180, 39140, 39100, 39059,
    39019, 38979, 38938, 38898, 38857, 38817, 38776, 38736, 38695, 38655, 38614, 38573,
    38533, 38492, 38451, 38411, 38370, 38329, 38288, 38248, 38207, 38166, 38125, 38084,
    38043, 38002, 37961, 37920, 37879, 37838, 37797, 37756, 37715, 37674, 37633, 37592,
    37551, 37509, 37468, 37427, 37386, 37344, 37303, 37262, 37220, 37179, 37137, 37096,
    37055, 37013, 36972, 36930, 36889, 36847, 36805, 36764, 36722, 36681, 36639, 36597,
    36555, 36514, 36472, 36430, 36388, 36347, 36305, 36263, 36221, 36179, 36137, 36095,
    36053, 36011, 35969, 35927, 35885, 35843, 35801, 35759, 35717, 35675, 35633, 35590,
    35548, 35506, 35464, 35421, 35379, 35337, 35294, 35252, 35210, 35167, 35125, 35082,
    35040, 34997, 34955, 34912, 34870, 34827, 34785, 34742, 34699, 34657, 34614, 34571,
    34529, 34486, 34443, 34400, 34358, 34315, 34272, 34229, 34186, 34143, 34100, 34057,
    34015, 33972, 33929, 33886, 33843, 33799, 33756, 33713, 33670, 33627, 33584, 33541,
    33498, 33454, 33411, 33368, 33325, 33281, 33238, 33195, 33151, 33108, 33065, 33021,
    32978, 32934, 32891, 32847, 32804, 32760, 32717, 32673, 32630, 32586, 32542, 32499,
    32455, 32411, 32368, 32324, 32280, 32236, 32193, 32149, 32105, 32061, 32017, 31974,
    31930, 31886, 31842, 31798, 31754, 31710, 31666, 31622, 31578, 31534, 31490, 31446,
    31402, 31357, 31313, 31269, 31225, 31181, 31136, 31092, 31048, 31004, 30959, 30915,
    30871, 30826, 30782, 30738, 30693, 30649, 30604, 30560, 30515, 30471, 30426, 30382,
    30337, 30293, 30248, 30204, 30159, 30114, 30070, 30025, 29980, 29936, 29891, 29846,
    29801, 29757, 29712, 29667, 29622, 29577, 29533, 29488, 29443, 29398, 29353, 29308,
    29263, 29218, 29173, 29128, 29083, 29038, 28993, 28948, 28903, 28858, 28812, 28767,
    28722, 28677, 28632, 28586, 28541, 28496, 28451, 28405, 28360, 28315, 28269, 28224,
    28179, 28133, 28088, 28042, 27997, 27952, 27906, 27861, 27815, 27770, 27724, 27678,
    27633, 27587, 27542, 27496, 27450, 27405, 27359, 27313, 27268, 27222, 27176, 27131,
    27085, 27039, 26993, 26947, 26902, 26856, 26810, 26764, 26718, 26672, 26626, 26580,
    26534, 26488, 26442, 26396, 26350, 26304, 26258, 26212, 26166, 26120, 26074, 26028,
    25982, 25936, 25889, 25843, 25797, 25751, 25705, 25658, 25612, 25566, 25520, 25473,
    25427, 25381, 25334, 25288, 25241, 25195, 25149, 25102, 25056, 25009, 24963, 24916,
    24870, 24823, 24777, 24730, 24684, 24637, 24591, 24544, 24497, 24451, 24404, 24357,
    24311, 24264, 24217, 24171, 24124, 24077, 24030, 23984, 23937, 23890, 23843, 23796,
    23750, 23703, 23656, 23609, 23562, 23515, 23468, 23421, 23374, 23327, 23280, 23233,
    23186, 23139, 23092, 23045, 22998, 22951, 22904, 22857, 22810, 22763, 22716, 22668,
    22621, 22574, 22527, 22480, 22432, 22385, 22338, 22291, 22243, 22196, 22149, 22102,
    22054, 22007, 21960, 21912, 21865, 21817, 21770, 21723, 21675, 21628, 21580, 21533,
    21485, 21438, 21390, 21343, 21295, 21248, 21200, 21153, 21105, 21057, 21010, 20962,
    20915, 20867, 20819, 20772, 20724, 20676, 20629, 20581, 20533, 20485, 20438, 20390,
    20342, 20294, 20246, 20199, 20151, 20103, 20055, 20007, 19959, 19912, 19864, 19816,
    19768, 19720, 19672, 19624, 19576, 19528, 19480, 19432, 19384, 19336, 19288, 19240,
    19192, 19144, 19096, 19048, 19000, 18951, 18903, 18855, 18807, 18759, 18711, 18663,
    18614, 18566, 18518, 18470, 18421, 18373, 18325, 18277, 18228, 18180, 18132, 18084,
    18035, 17987, 17939, 17890, 17842, 17793, 17745, 17697, 17648, 17600, 17551, 17503,
    17455, 17406, 17358, 17309, 17261, 17212, 17164, 17115, 17067, 17018, 16970, 16921,
    16872, 16824, 16775, 16727, 16678, 16629, 16581, 16532, 16484, 16435, 16386, 16338,
    16289, 16240, 16191, 16143, 16094, 16045, 15997, 15948, 15899, 15850, 15802, 15753,
    15704, 15655, 15606, 15557, 15509, 15460, 15411, 15362, 15313, 15264, 15215, 15167,
    15118, 15069, 15020, 14971, 14922, 14873, 14824, 14775, 14726, 14677, 14628, 14579,
    14530, 14481, 14432, 14383, 14334, 14285, 14236, 14187, 14138, 14089, 14040, 13990,
    13941, 13892, 13843, 13794, 13745, 13696, 13647, 13597, 13548, 13499, 13450, 13401,
    13351, 13302, 13253, 13204, 13154, 13105, 13056, 13007, 12957, 12908, 12859, 12810,
    12760, 12711, 12662, 12612, 12563, 12514, 12464, 12415, 12366, 12316, 12267, 12218,
    12168, 12119, 12069, 12020, 11970, 11921, 11872, 11822, 11773, 11723, 11674, 11624,
    11575, 11525, 11476, 11426, 11377, 11327, 11278, 11228, 11179, 11129, 11080, 11030,
    10981, 10931, 10882, 10832, 10782, 10733, 10683, 10634, 10584, 10534, 10485, 10435,
    10386, 10336, 10286, 10237, 10187, 10137, 10088, 10038, 9988, 9939, 9889, 9839,
    9790, 9740, 9690, 9640, 9591, 9541, 9491, 9442, 9392, 9342, 9292, 9243,
    9193, 9143, 9093, 9043, 8994, 8944, 8894, 8844, 8794, 8745, 8695, 8645,
    8595, 8545, 8496, 8446, 8396, 8346, 8296, 8246, 8196, 8147, 8097, 8047,
    7997, 7947, 7897, 7847, 7797, 7747, 7697, 7648, 7598, 7548, 7498, 7448,
    7398, 7348, 7298, 7248, 7198, 7148, 7098, 7048, 6998, 6948, 6898, 6848,
    6798, 6748, 6698, 6648, 6598, 6548, 6498, 6448, 6398, 6348, 6298, 6248,
    6198, 6148, 6098, 6048, 5998, 5948, 5898, 5848, 5798, 5748, 5697, 5647,
    5597, 5547, 5497, 5447, 5397, 5347, 5297, 5247, 5197, 5146, 5096, 5046,
    4996, 4946, 4896, 4846, 4796, 4745, 4695, 4645, 4595, 4545, 4495, 4445,
    4394, 4344, 4294, 4244, 4194, 4144, 4093, 4043, 3993, 3943, 3893, 3843,
    3792, 3742, 3692, 3642, 3592, 3541, 3491, 3441, 3391, 3341, 3291, 3240,
    3190, 3140, 3090, 3039, 2989, 2939, 2889, 2839, 2788, 2738, 2688, 2638,
    2587, 2537, 2487, 2437, 2387, 2336, 2286, 2236, 2186, 2135, 2085, 2035,
    1985, 1934, 1884, 1834, 1784, 1733, 1683, 1633, 1583, 1532, 1482, 1432,
    1382, 1331, 1281, 1231, 1181, 1130, 1080, 1030, 980, 929, 879, 829,
    779, 728, 678, 628, 578, 527, 477, 427, 376, 326, 276, 226,
    175, 125, 75, 25,
];

const FINE_SINE_MAG_4: [u16; 1024] = [
    25, 75, 125, 175, 226, 276, 326, 376, 427, 477, 527, 578,
    628, 678, 728, 779, 829, 879, 929, 980, 1030, 1080, 1130, 1181,
    1231, 1281, 1331, 1382, 1432, 1482, 1532, 1583, 1633, 1683, 1733, 1784,
    1834, 1884, 1934, 1985, 2035, 2085, 2135, 2186, 2236, 2286, 2336, 2387,
    2437, 2487, 2537, 2587, 2638, 2688, 2738, 2788, 2839, 2889, 2939, 2989,
    3039, 3090, 3140, 3190, 3240, 3291, 3341, 3391, 3441, 3491, 3541, 3592,
    3642, 3692, 3742, 3792, 3843, 3893, 3943, 3993, 4043, 4093, 4144, 4194,
    4244, 4294, 4344, 4394, 4445, 4495, 4545, 4595, 4645, 4695, 4745, 4796,
    4846, 4896, 4946, 4996, 5046, 5096, 5146, 5197, 5247, 5297, 5347, 5397,
    5447, 5497, 5547, 5597, 5647, 5697, 5748, 5798, 5848, 5898, 5948, 5998,
    6048, 6098, 6148, 6198, 6248, 6298, 6348, 6398, 6448, 6498, 6548, 6598,
    6648, 6698, 6748, 6798, 6848, 6898, 6948, 6998, 7048, 7098, 7148, 7198,
    7248, 7298, 7348, 7398, 7448, 7498, 7548, 7598, 7648, 7697, 7747, 7797,
    7847, 7897, 7947, 7997, 8047, 8097, 8147, 8196, 8246, 8296, 8346, 8396,
    8446, 8496, 8545, 8595, 8645, 8695, 8745, 8794, 8844, 8894, 8944, 8994,
    9043, 9093, 9143, 9193, 9243, 9292, 9342, 9392, 9442, 9491, 9541, 9591,
    9640, 9690, 9740, 9790, 9839, 9889, 9939, 9988, 10038, 10088, 10137, 10187,
    10237, 10286, 10336, 10386, 10435, 10485, 10534, 10584, 10634, 10683, 10733, 10782,
    10832, 10882, 10931, 10981, 11030, 11080, 11129, 11179, 11228, 11278, 11327, 11377,
    11426, 11476, 11525, 11575, 11624, 11674, 11723, 11773, 11822, 11872, 11921, 11970,
    12020, 12069, 12119, 12168, 12218, 12267, 12316, 12366, 12415, 12464, 12514, 12563,
    12612, 12662, 12711, 12760, 12810, 12859, 12908, 12957, 13007, 13056, 13105, 13154,
    13204, 13253, 13302, 13351, 13401, 13450, 13499, 13548, 13597, 13647, 13696, 13745,
    13794, 13843, 13892, 13941, 13990, 14040, 14089, 14138, 14187, 14236, 14285, 14334,
    14383, 14432, 14481, 14530, 14579, 14628, 14677, 14726, 14775, 14824, 14873, 14922,
    14971, 15020, 15069, 15118, 15167, 15215, 15264, 15313, 15362, 15411, 15460, 15509,
    15557, 15606, 15655, 15704, 15753, 15802, 15850, 15899, 15948, 15997, 16045, 16094,
    16143, 16191, 16240, 16289, 16338, 16386, 16435, 16484, 16532, 16581, 16629, 16678,
    16727, 16775, 16824, 16872, 16921, 16970, 17018, 17067, 17115, 17164, 17212, 17261,
    17309, 17358, 17406, 17455, 17503, 17551, 17600, 17648, 17697, 17745, 17793, 17842,
    17890, 17939, 17987, 18035, 18084, 18132, 18180, 18228, 18277, 18325, 18373, 18421,
    18470, 18518, 18566, 18614, 18663, 18711, 18759, 18807, 18855, 18903, 18951, 19000,
    19048, 19096, 19144, 19192, 19240, 19288, 19336, 19384, 19432, 19480, 19528, 19576,
    19624, 19672, 19720, 19768, 19816, 19864, 19912, 19959, 20007, 20055, 20103, 20151,
    20199, 20246, 20294, 20342, 20390, 20438, 20485, 20533, 20581, 20629, 20676, 20724,
    20772, 20819, 20867, 20915, 20962, 21010, 21057, 21105, 21153, 21200, 21248, 21295,
    21343, 21390, 21438, 21485, 21533, 21580, 21628, 21675, 21723, 21770, 21817, 21865,
    21912, 21960, 22007, 22054, 22102, 22149, 22196, 22243, 22291, 22338, 22385, 22432,
    22480, 22527, 22574, 22621, 22668, 22716, 22763, 22810, 22857, 22904, 22951, 22998,
    23045, 23092, 23139, 23186, 23233, 23280, 23327, 23374, 23421, 23468, 23515, 23562,
    23609, 23656, 23703, 23750, 23796, 23843, 23890, 23937, 23984, 24030, 24077, 24124,
    24171, 24217, 24264, 24311, 24357, 24404, 24451, 24497, 24544, 24591, 24637, 24684,
    24730, 24777, 24823, 24870, 24916, 24963, 25009, 25056, 25102, 25149, 25195, 25241,
    25288, 25334, 25381, 25427, 25473, 25520, 25566, 25612, 25658, 25705, 25751, 25797,
    25843, 25889, 25936, 25982, 26028, 26074, 26120, 26166, 26212, 26258, 26304, 26350,
    26396, 26442, 26488, 26534, 26580, 26626, 26672, 26718, 26764, 26810, 26856, 26902,
    26947, 26993, 27039, 27085, 27131, 27176, 27222, 27268, 27313, 27359, 27405, 27450,
    27496, 27542, 27587, 27633, 27678, 27724, 27770, 27815, 27861, 27906, 27952, 27997,
    28042, 28088, 28133, 28179, 28224, 28269, 28315, 28360, 28405, 28451, 28496, 28541,
    28586, 28632, 28677, 28722, 28767, 28812, 28858, 28903, 28948, 28993, 29038, 29083,
    29128, 29173, 29218, 29263, 29308, 29353, 29398, 29443, 29488, 29533, 29577, 29622,
    29667, 29712, 29757, 29801, 29846, 29891, 29936, 29980, 30025, 30070, 30114, 30159,
    30204, 30248, 30293, 30337, 30382, 30426, 30471, 30515, 30560, 30604, 30649, 30693,
    30738, 30782, 30826, 30871, 30915, 30959, 31004, 31048, 31092, 31136, 31181, 31225,
    31269, 31313, 31357, 31402, 31446, 31490, 31534, 31578, 31622, 31666, 31710, 31754,
    31798, 31842, 31886, 31930, 31974, 32017, 32061, 32105, 32149, 32193, 32236, 32280,
    32324, 32368, 32411, 32455, 32499, 32542, 32586, 32630, 32673, 32717, 32760, 32804,
    32847, 32891, 32934, 32978, 33021, 33065, 33108, 33151, 33195, 33238, 33281, 33325,
    33368, 33411, 33454, 33498, 33541, 33584, 33627, 33670, 33713, 33756, 33799, 33843,
    33886, 33929, 33972, 34015, 34057, 34100, 34143, 34186, 34229, 34272, 34315, 34358,
    34400, 34443, 34486, 34529, 34571, 34614, 34657, 34699, 34742, 34785, 34827, 34870,
    34912, 34955, 34997, 35040, 35082, 35125, 35167, 35210, 35252, 35294, 35337, 35379,
    35421, 35464, 35506, 35548, 35590, 35633, 35675, 35717, 35759, 35801, 35843, 35885,
    35927, 35969, 36011, 36053, 36095, 36137, 36179, 36221, 36263, 36305, 36347, 36388,
    36430, 36472, 36514, 36555, 36597, 36639, 36681, 36722, 36764, 36805, 36847, 36889,
    36930, 36972, 37013, 37055, 37096, 37137, 37179, 37220, 37262, 37303, 37344, 37386,
    37427, 37468, 37509, 37551, 37592, 37633, 37674, 37715, 37756, 37797, 37838, 37879,
    37920, 37961, 38002, 38043, 38084, 38125, 38166, 38207, 38248, 38288, 38329, 38370,
    38411, 38451, 38492, 38533, 38573, 38614, 38655, 38695, 38736, 38776, 38817, 38857,
    38898, 38938, 38979, 39019, 39059, 39100, 39140, 39180, 39221, 39261, 39301, 39341,
    39382, 39422, 39462, 39502, 39542, 39582, 39622, 39662, 39702, 39742, 39782, 39822,
    39862, 39902, 39942, 39982, 40021, 40061, 40101, 40141, 40180, 40220, 40260, 40300,
    40339, 40379, 40418, 40458, 40497, 40537, 40576, 40616, 40655, 40695, 40734, 40773,
    40813, 40852, 40891, 40931, 40970, 41009, 41048, 41087, 41127, 41166, 41205, 41244,
    41283, 41322, 41361, 41400, 41439, 41478, 41517, 41556, 41595, 41633, 41672, 41711,
    41750, 41788, 41827, 41866, 41904, 41943, 41982, 42020, 42059, 42097, 42136, 42174,
    42213, 42251, 42290, 42328, 42366, 42405, 42443, 42481, 42520, 42558, 42596, 42634,
    42672, 42711, 42749, 42787, 42825, 42863, 42901, 42939, 42977, 43015, 43053, 43091,
    43128, 43166, 43204, 43242, 43280, 43317, 43355, 43393, 43430, 43468, 43506, 43543,
    43581, 43618, 43656, 43693, 43731, 43768, 43806, 43843, 43880, 43918, 43955, 43992,
    44029, 44067, 44104, 44141, 44178, 44215, 44252, 44289, 44326, 44363, 44400, 44437,
    44474, 44511, 44548, 44585, 44622, 44659, 44695, 44732, 44769, 44806, 44842, 44879,
    44915, 44952, 44989, 45025, 45062, 45098, 45135, 45171, 45207, 45244, 45280, 45316,
    45353, 45389, 45425, 45462, 45498, 45534, 45570, 45606, 45642, 45678, 45714, 45750,
    45786, 45822, 45858, 45894, 45930, 45966, 46002, 46037, 46073, 46109, 46145, 46180,
    46216, 46252, 46287, 46323,
];

const FINE_SINE_MAG_5: [u16; 1024] = [
    46358, 46394, 46429, 46465, 46500, 46536, 46571, 46606, 46642, 46677, 46712, 46747,
    46783, 46818, 46853, 46888, 46923, 46958, 46993, 47028, 47063, 47098, 47133, 47168,
    47203, 47238, 47273, 47308, 47342, 47377, 47412, 47446, 47481, 47516, 47550, 47585,
    47619, 47654, 47688, 47723, 47757, 47792, 47826, 47860, 47895, 47929, 47963, 47998,
    48032, 48066, 48100, 48134, 48168, 48202, 48237, 48271, 48304, 48338, 48372, 48406,
    48440, 48474, 48508, 48542, 48575, 48609, 48643, 48676, 48710, 48744, 48777, 48811,
    48844, 48878, 48911, 48945, 48978, 49012, 49045, 49078, 49112, 49145, 49178, 49211,
    49244, 49278, 49311, 49344, 49377, 49410, 49443, 49476, 49509, 49542, 49575, 49608,
    49640, 49673, 49706, 49739, 49771, 49804, 49837, 49869, 49902, 49935, 49967, 50000,
    50032, 50065, 50097, 50129, 50162, 50194, 50226, 50259, 50291, 50323, 50355, 50387,
    50420, 50452, 50484, 50516, 50548, 50580, 50612, 50644, 50675, 50707, 50739, 50771,
    50803, 50834, 50866, 50898, 50929, 50961, 50993, 51024, 51056, 51087, 51119, 51150,
    51182, 51213, 51244, 51276, 51307, 51338, 51369, 51401, 51432, 51463, 51494, 51525,
    51556, 51587, 51618, 51649, 51680, 51711, 51742, 51773, 51803, 51834, 51865, 51896,
    51926, 51957, 51988, 52018, 52049, 52079, 52110, 52140, 52171, 52201, 52231, 52262,
    52292, 52322, 52353, 52383, 52413, 52443, 52473, 52503, 52534, 52564, 52594, 52624,
    52653, 52683, 52713, 52743, 52773, 52803, 52832, 52862, 52892, 52922, 52951, 52981,
    53010, 53040, 53069, 53099, 53128, 53158, 53187, 53216, 53246, 53275, 53304, 53334,
    53363, 53392, 53421, 53450, 53479, 53508, 53537, 53566, 53595, 53624, 53653, 53682,
    53711, 53739, 53768, 53797, 53826, 53854, 53883, 53911, 53940, 53969, 53997, 54026,
    54054, 54082, 54111, 54139, 54167, 54196, 54224, 54252, 54280, 54308, 54337, 54365,
    54393, 54421, 54449, 54477, 54505, 54533, 54560, 54588, 54616, 54644, 54672, 54699,
    54727, 54755, 54782, 54810, 54837, 54865, 54892, 54920, 54947, 54974, 55002, 55029,
    55056, 55084, 55111, 55138, 55165, 55192, 55219, 55246, 55274, 55300, 55327, 55354,
    55381, 55408, 55435, 55462, 55489, 55515, 55542, 55569, 55595, 55622, 55648, 55675,
    55701, 55728, 55754, 55781, 55807, 55833, 55860, 55886, 55912, 55938, 55965, 55991,
    56017, 56043, 56069, 56095, 56121, 56147, 56173, 56199, 56225, 56250, 56276, 56302,
    56328, 56353, 56379, 56404, 56430, 56456, 56481, 56507, 56532, 56557, 56583, 56608,
    56633, 56659, 56684, 56709, 56734, 56760, 56785, 56810, 56835, 56860, 56885, 56910,
    56935, 56959, 56984, 57009, 57034, 57059, 57083, 57108, 57133, 57157, 57182, 57206,
    57231, 57255, 57280, 57304, 57329, 57353, 57377, 57402, 57426, 57450, 57474, 57498,
    57522, 57546, 57570, 57594, 57618, 57642, 57666, 57690, 57714, 57738, 57762, 57785,
    57809, 57833, 57856, 57880, 57903, 57927, 57950, 57974, 57997, 58021, 58044, 58067,
    58091, 58114, 58137, 58160, 58183, 58207, 58230, 58253, 58276, 58299, 58322, 58345,
    58367, 58390, 58413, 58436, 58459, 58481, 58504, 58527, 58549, 58572, 58594, 58617,
    58639, 58662, 58684, 58706, 58729, 58751, 58773, 58795, 58818, 58840, 58862, 58884,
    58906, 58928, 58950, 58972, 58994, 59016, 59038, 59059, 59081, 59103, 59125, 59146,
    59168, 59190, 59211, 59233, 59254, 59276, 59297, 59318, 59340, 59361, 59382, 59404,
    59425, 59446, 59467, 59488, 59509, 59530, 59551, 59572, 59593, 59614, 59635, 59656,
    59677, 59697, 59718, 59739, 59759, 59780, 59801, 59821, 59842, 59862, 59883, 59903,
    59923, 59944, 59964, 59984, 60004, 60025, 60045, 60065, 60085, 60105, 60125, 60145,
    60165, 60185, 60205, 60225, 60244, 60264, 60284, 60304, 60323, 60343, 60363, 60382,
    60402, 60421, 60441, 60460, 60479, 60499, 60518, 60537, 60556, 60576, 60595, 60614,
    60633, 60652, 60671, 60690, 60709, 60728, 60747, 60766, 60785, 60803, 60822, 60841,
    60859, 60878, 60897, 60915, 60934, 60952, 60971, 60989, 61007, 61026, 61044, 61062,
    61081, 61099, 61117, 61135, 61153, 61171, 61189, 61207, 61225, 61243, 61261, 61279,
    61297, 61314, 61332, 61350, 61367, 61385, 61403, 61420, 61438, 61455, 61473, 61490,
    61507, 61525, 61542, 61559, 61577, 61594, 61611, 61628, 61645, 61662, 61679, 61696,
    61713, 61730, 61747, 61764, 61780, 61797, 61814, 61831, 61847, 61864, 61880, 61897,
    61913, 61930, 61946, 61963, 61979, 61995, 62012, 62028, 62044, 62060, 62076, 62092,
    62108, 62125, 62141, 62156, 62172, 62188, 62204, 62220, 62236, 62251, 62267, 62283,
    62298, 62314, 62329, 62345, 62360, 62376, 62391, 62407, 62422, 62437, 62453, 62468,
    62483, 62498, 62513, 62528, 62543, 62558, 62573, 62588, 62603, 62618, 62633, 62648,
    62662, 62677, 62692, 62706, 62721, 62735, 62750, 62764, 62779, 62793, 62808, 62822,
    62836, 62850, 62865, 62879, 62893, 62907, 62921, 62935, 62949, 62963, 62977, 62991,
    63005, 63019, 63032, 63046, 63060, 63074, 63087, 63101, 63114, 63128, 63141, 63155,
    63168, 63182, 63195, 63208, 63221, 63235, 63248, 63261, 63274, 63287, 63300, 63313,
    63326, 63339, 63352, 63365, 63378, 63390, 63403, 63416, 63429, 63441, 63454, 63466,
    63479, 63491, 63504, 63516, 63528, 63541, 63553, 63565, 63578, 63590, 63602, 63614,
    63626, 63638, 63650, 63662, 63674, 63686, 63698, 63709, 63721, 63733, 63745, 63756,
    63768, 63779, 63791, 63803, 63814, 63825, 63837, 63848, 63859, 63871, 63882, 63893,
    63904, 63915, 63927, 63938, 63949, 63960, 63971, 63981, 63992, 64003, 64014, 64025,
    64035, 64046, 64057, 64067, 64078, 64088, 64099, 64109, 64120, 64130, 64140, 64151,
    64161, 64171, 64181, 64192, 64202, 64212, 64222, 64232, 64242, 64252, 64261, 64271,
    64281, 64291, 64301, 64310, 64320, 64330, 64339, 64349, 64358, 64368, 64377, 64387,
    64396, 64405, 64414, 64424, 64433, 64442, 64451, 64460, 64469, 64478, 64487, 64496,
    64505, 64514, 64523, 64532, 64540, 64549, 64558, 64566, 64575, 64584, 64592, 64601,
    64609, 64617, 64626, 64634, 64642, 64651, 64659, 64667, 64675, 64683, 64691, 64699,
    64707, 64715, 64723, 64731, 64739, 64747, 64754, 64762, 64770, 64777, 64785, 64793,
    64800, 64808, 64815, 64822, 64830, 64837, 64844, 64852, 64859, 64866, 64873, 64880,
    64887, 64895, 64902, 64908, 64915, 64922, 64929, 64936, 64943, 64949, 64956, 64963,
    64969, 64976, 64982, 64989, 64995, 65002, 65008, 65015, 65021, 65027, 65033, 65040,
    65046, 65052, 65058, 65064, 65070, 65076, 65082, 65088, 65094, 65099, 65105, 65111,
    65117, 65122, 65128, 65133, 65139, 65144, 65150, 65155, 65161, 65166, 65171, 65177,
    65182, 65187, 65192, 65197, 65202, 65207, 65212, 65217, 65222, 65227, 65232, 65237,
    65242, 65246, 65251, 65256, 65260, 65265, 65270, 65274, 65279, 65283, 65287, 65292,
    65296, 65300, 65305, 65309, 65313, 65317, 65321, 65325, 65329, 65333, 65337, 65341,
    65345, 65349, 65352, 65356, 65360, 65363, 65367, 65371, 65374, 65378, 65381, 65385,
    65388, 65391, 65395, 65398, 65401, 65404, 65408, 65411, 65414, 65417, 65420, 65423,
    65426, 65429, 65431, 65434, 65437, 65440, 65442, 65445, 65448, 65450, 65453, 65455,
    65458, 65460, 65463, 65465, 65467, 65470, 65472, 65474, 65476, 65478, 65480, 65482,
    65484, 65486, 65488, 65490, 65492, 65494, 65496, 65497, 65499, 65501, 65502, 65504,
    65505, 65507, 65508, 65510, 65511, 65513, 65514, 65515, 65516, 65518, 65519, 65520,
    65521, 65522, 65523, 65524, 65525, 65526, 65527, 65527, 65528, 65529, 65530, 65530,
    65531, 65531, 65532, 65532, 65533, 65533, 65534, 65534, 65534, 65535, 65535, 65535,
    65535, 65535, 65535, 65535,
];

const FINE_SINE_MAG_6: [u16; 1024] = [
    65535, 65535, 65535, 65535, 65535, 65535, 65535, 65534, 65534, 65534, 65533, 65533,
    65532, 65532, 65531, 65531, 65530, 65530, 65529, 65528, 65527, 65527, 65526, 65525,
    65524, 65523, 65522, 65521, 65520, 65519, 65518, 65516, 65515, 65514, 65513, 65511,
    65510, 65508, 65507, 65505, 65504, 65502, 65501, 65499, 65497, 65496, 65494, 65492,
    65490, 65488, 65486, 65484, 65482, 65480, 65478, 65476, 65474, 65472, 65470, 65467,
    65465, 65463, 65460, 65458, 65455, 65453, 65450, 65448, 65445, 65442, 65440, 65437,
    65434, 65431, 65429, 65426, 65423, 65420, 65417, 65414, 65411, 65408, 65404, 65401,
    65398, 65395, 65391, 65388, 65385, 65381, 65378, 65374, 65371, 65367, 65363, 65360,
    65356, 65352, 65349, 65345, 65341, 65337, 65333, 65329, 65325, 65321, 65317, 65313,
    65309, 65305, 65300, 65296, 65292, 65287, 65283, 65279, 65274, 65270, 65265, 65260,
    65256, 65251, 65246, 65242, 65237, 65232, 65227, 65222, 65217, 65212, 65207, 65202,
    65197, 65192, 65187, 65182, 65177, 65171, 65166, 65161, 65155, 65150, 65144, 65139,
    65133, 65128, 65122, 65117, 65111, 65105, 65099, 65094, 65088, 65082, 65076, 65070,
    65064, 65058, 65052, 65046, 65040, 65033, 65027, 65021, 65015, 65008, 65002, 64995,
    64989, 64982, 64976, 64969, 64963, 64956, 64949, 64943, 64936, 64929, 64922, 64915,
    64908, 64902, 64895, 64887, 64880, 64873, 64866, 64859, 64852, 64844, 64837, 64830,
    64822, 64815, 64808, 64800, 64793, 64785, 64777, 64770, 64762, 64754, 64747, 64739,
    64731, 64723, 64715, 64707, 64699, 64691, 64683, 64675, 64667, 64659, 64651, 64642,
    64634, 64626, 64617, 64609, 64601, 64592, 64584, 64575, 64566, 64558, 64549, 64540,
    64532, 64523, 64514, 64505, 64496, 64487, 64478, 64469, 64460, 64451, 64442, 64433,
    64424, 64414, 64405, 64396, 64387, 64377, 64368, 64358, 64349, 64339, 64330, 64320,
    64310, 64301, 64291, 64281, 64271, 64261, 64252, 64242, 64232, 64222, 64212, 64202,
    64192, 64181, 64171, 64161, 64151, 64140, 64130, 64120, 64109, 64099, 64088, 64078,
    64067, 64057, 64046, 64035, 64025, 64014, 64003, 63992, 63981, 63971, 63960, 63949,
    63938, 63927, 63915, 63904, 63893, 63882, 63871, 63859, 63848, 63837, 63825, 63814,
    63803, 63791, 63779, 63768, 63756, 63745, 63733, 63721, 63709, 63698, 63686, 63674,
    63662, 63650, 63638, 63626, 63614, 63602, 63590, 63578, 63565, 63553, 63541, 63528,
    63516, 63504, 63491, 63479, 63466, 63454, 63441, 63429, 63416, 63403, 63390, 63378,
    63365, 63352, 63339, 63326, 63313, 63300, 63287, 63274, 63261, 63248, 63235, 63221,
    63208, 63195, 63182, 63168, 63155, 63141, 63128, 63114, 63101, 63087, 63074, 63060,
    63046, 63032, 63019, 63005, 62991, 62977, 62963, 62949, 62935, 62921, 62907, 62893,
    62879, 62865, 62850, 62836, 62822, 62808, 62793, 62779, 62764, 62750, 62735, 62721,
    62706, 62692, 62677, 62662, 62648, 62633, 62618, 62603, 62588, 62573, 62558, 62543,
    62528, 62513, 62498, 62483, 62468, 62453, 62437, 62422, 62407, 62391, 62376, 62360,
    62345, 62329, 62314, 62298, 62283, 62267, 62251, 62236, 62220, 62204, 62188, 62172,
    62156, 62141, 62125, 62108, 62092, 62076, 62060, 62044, 62028, 62012, 61995, 61979,
    61963, 61946, 61930, 61913, 61897, 61880, 61864, 61847, 61831, 61814, 61797, 61780,
    61764, 61747, 61730, 61713, 61696, 61679, 61662, 61645, 61628, 61611, 61594, 61577,
    61559, 61542, 61525, 61507, 61490, 61473, 61455, 61438, 61420, 61403, 61385, 61367,
    61350, 61332, 61314, 61297, 61279, 61261, 61243, 61225, 61207, 61189, 61171, 61153,
    61135, 61117, 61099, 61081, 61062, 61044, 61026, 61007, 60989, 60971, 60952, 60934,
    60915, 60897, 60878, 60859, 60841, 60822, 60803, 60785, 60766, 60747, 60728, 60709,
    60690, 60671, 60652, 60633, 60614, 60595, 60576, 60556, 60537, 60518, 60499, 60479,
    60460, 60441, 60421, 60402, 60382, 60363, 60343, 60323, 60304, 60284, 60264, 60244,
    60225, 60205, 60185, 60165, 60145, 60125, 60105, 60085, 60065, 60045, 60025, 60004,
    59984, 59964, 59944, 59923, 59903, 59883, 59862, 59842, 59821, 59801, 59780, 59759,
    59739, 59718, 59697, 59677, 59656, 59635, 59614, 59593, 59572, 59551, 59530, 59509,
    59488, 59467, 59446, 59425, 59404, 59382, 59361, 59340, 59318, 59297, 59276, 59254,
    59233, 59211, 59190, 59168, 59146, 59125, 59103, 59081, 59059, 59038, 59016, 58994,
    58972, 58950, 58928, 58906, 58884, 58862, 58840, 58818, 58795, 58773, 58751, 58729,
    58706, 58684, 58662, 58639, 58617, 58594, 58572, 58549, 58527, 58504, 58481, 58459,
    58436, 58413, 58390, 58367, 58345, 58322, 58299, 58276, 58253, 58230, 58207, 58183,
    58160, 58137, 58114, 58091, 58067, 58044, 58021, 57997, 57974, 57950, 57927, 57903,
    57880, 57856, 57833, 57809, 57785, 57762, 57738, 57714, 57690, 57666, 57642, 57618,
    57594, 57570, 57546, 57522, 57498, 57474, 57450, 57426, 57402, 57377, 57353, 57329,
    57304, 57280, 57255, 57231, 57206, 57182, 57157, 57133, 57108, 57083, 57059, 57034,
    57009, 56984, 56959, 56935, 56910, 56885, 56860, 56835, 56810, 56785, 56760, 56734,
    56709, 56684, 56659, 56633, 56608, 56583, 56557, 56532, 56507, 56481, 56456, 56430,
    56404, 56379, 56353, 56328, 56302, 56276, 56250, 56225, 56199, 56173, 56147, 56121,
    56095, 56069, 56043, 56017, 55991, 55965, 55938, 55912, 55886, 55860, 55833, 55807,
    55781, 55754, 55728, 55701, 55675, 55648, 55622, 55595, 55569, 55542, 55515, 55489,
    55462, 55435, 55408, 55381, 55354, 55327, 55300, 55274, 55246, 55219, 55192, 55165,
    55138, 55111, 55084, 55056, 55029, 55002, 54974, 54947, 54920, 54892, 54865, 54837,
    54810, 54782, 54755, 54727, 54699, 54672, 54644, 54616, 54588, 54560, 54533, 54505,
    54477, 54449, 54421, 54393, 54365, 54337, 54308, 54280, 54252, 54224, 54196, 54167,
    54139, 54111, 54082, 54054, 54026, 53997, 53969, 53940, 53911, 53883, 53854, 53826,
    53797, 53768, 53739, 53711, 53682, 53653, 53624, 53595, 53566, 53537, 53508, 53479,
    53450, 53421, 53392, 53363, 53334, 53304, 53275, 53246, 53216, 53187, 53158, 53128,
    53099, 53069, 53040, 53010, 52981, 52951, 52922, 52892, 52862, 52832, 52803, 52773,
    52743, 52713, 52683, 52653, 52624, 52594, 52564, 52534, 52503, 52473, 52443, 52413,
    52383, 52353, 52322, 52292, 52262, 52231, 52201, 52171, 52140, 52110, 52079, 52049,
    52018, 51988, 51957, 51926, 51896, 51865, 51834, 51803, 51773, 51742, 51711, 51680,
    51649, 51618, 51587, 51556, 51525, 51494, 51463, 51432, 51401, 51369, 51338, 51307,
    51276, 51244, 51213, 51182, 51150, 51119, 51087, 51056, 51024, 50993, 50961, 50929,
    50898, 50866, 50834, 50803, 50771, 50739, 50707, 50675, 50644, 50612, 50580, 50548,
    50516, 50484, 50452, 50420, 50387, 50355, 50323, 50291, 50259, 50226, 50194, 50162,
    50129, 50097, 50065, 50032, 50000, 49967, 49935, 49902, 49869, 49837, 49804, 49771,
    49739, 49706, 49673, 49640, 49608, 49575, 49542, 49509, 49476, 49443, 49410, 49377,
    49344, 49311, 49278, 49244, 49211, 49178, 49145, 49112, 49078, 49045, 49012, 48978,
    48945, 48911, 48878, 48844, 48811, 48777, 48744, 48710, 48676, 48643, 48609, 48575,
    48542, 48508, 48474, 48440, 48406, 48372, 48338, 48304, 48271, 48237, 48202, 48168,
    48134, 48100, 48066, 48032, 47998, 47963, 47929, 47895, 47860, 47826, 47792, 47757,
    47723, 47688, 47654, 47619, 47585, 47550, 47516, 47481, 47446, 47412, 47377, 47342,
    47308, 47273, 47238, 47203, 47168, 47133, 47098, 47063, 47028, 46993, 46958, 46923,
    46888, 46853, 46818, 46783, 46747, 46712, 46677, 46642, 46606, 46571, 46536, 46500,
    46465, 46429, 46394, 46358,
];

const FINE_SINE_MAG_7: [u16; 1024] = [
    46323, 46287, 46252, 46216, 46180, 46145, 46109, 46073, 46037, 46002, 45966, 45930,
    45894, 45858, 45822, 45786, 45750, 45714, 45678, 45642, 45606, 45570, 45534, 45498,
    45462, 45425, 45389, 45353, 45316, 45280, 45244, 45207, 45171, 45135, 45098, 45062,
    45025, 44989, 44952, 44915, 44879, 44842, 44806, 44769, 44732, 44695, 44659, 44622,
    44585, 44548, 44511, 44474, 44437, 44400, 44363, 44326, 44289, 44252, 44215, 44178,
    44141, 44104, 44067, 44029, 43992, 43955, 43918, 43880, 43843, 43806, 43768, 43731,
    43693, 43656, 43618, 43581, 43543, 43506, 43468, 43430, 43393, 43355, 43317, 43280,
    43242, 43204, 43166, 43128, 43091, 43053, 43015, 42977, 42939, 42901, 42863, 42825,
    42787, 42749, 42711, 42672, 42634, 42596, 42558, 42520, 42481, 42443, 42405, 42366,
    42328, 42290, 42251, 42213, 42174, 42136, 42097, 42059, 42020, 41982, 41943, 41904,
    41866, 41827, 41788, 41750, 41711, 41672, 41633, 41595, 41556, 41517, 41478, 41439,
    41400, 41361, 41322, 41283, 41244, 41205, 41166, 41127, 41087, 41048, 41009, 40970,
    40931, 40891, 40852, 40813, 40773, 40734, 40695, 40655, 40616, 40576, 40537, 40497,
    40458, 40418, 40379, 40339, 40300, 40260, 40220, 40180, 40141, 40101, 40061, 40021,
    39982, 39942, 39902, 39862, 39822, 39782, 39742, 39702, 39662, 39622, 39582, 39542,
    39502, 39462, 39422, 39382, 39341, 39301, 39261, 39221, 39180, 39140, 39100, 39059,
    39019, 38979, 38938, 38898, 38857, 38817, 38776, 38736, 38695, 38655, 38614, 38573,
    38533, 38492, 38451, 38411, 38370, 38329, 38288, 38248, 38207, 38166, 38125, 38084,
    38043, 38002, 37961, 37920, 37879, 37838, 37797, 37756, 37715, 37674, 37633, 37592,
    37551, 37509, 37468, 37427, 37386, 37344, 37303, 37262, 37220, 37179, 37137, 37096,
    37055, 37013, 36972, 36930, 36889, 36847, 36805, 36764, 36722, 36681, 36639, 36597,
    36555, 36514, 36472, 36430, 36388, 36347, 36305, 36263, 36221, 36179, 36137, 36095,
    36053, 36011, 35969, 35927, 35885, 35843, 35801, 35759, 35717, 35675, 35633, 35590,
    35548, 35506, 35464, 35421, 35379, 35337, 35294, 35252, 35210, 35167, 35125, 35082,
    35040, 34997, 34955, 34912, 34870, 34827, 34785, 34742, 34699, 34657, 34614, 34571,
    34529, 34486, 34443, 34400, 34358, 34315, 34272, 34229, 34186, 34143, 34100, 34057,
    34015, 33972, 33929, 33886, 33843, 33799, 33756, 33713, 33670, 33627, 33584, 33541,
    33498, 33454, 33411, 33368, 33325, 33281, 33238, 33195, 33151, 33108, 33065, 33021,
    32978, 32934, 32891, 32847, 32804, 32760, 32717, 32673, 32630, 32586, 32542, 32499,
    32455, 32411, 32368, 32324, 32280, 32236, 32193, 32149, 32105, 32061, 32017, 31974,
    31930, 31886, 31842, 31798, 31754, 31710, 31666, 31622, 31578, 31534, 31490, 31446,
    31402, 31357, 31313, 31269, 31225, 31181, 31136, 31092, 31048, 31004, 30959, 30915,
    30871, 30826, 30782, 30738, 30693, 30649, 30604, 30560, 30515, 30471, 30426, 30382,
    30337, 30293, 30248, 30204, 30159, 30114, 30070, 30025, 29980, 29936, 29891, 29846,
    29801, 29757, 29712, 29667, 29622, 29577, 29533, 29488, 29443, 29398, 29353, 29308,
    29263, 29218, 29173, 29128, 29083, 29038, 28993, 28948, 28903, 28858, 28812, 28767,
    28722, 28677, 28632, 28586, 28541, 28496, 28451, 28405, 28360, 28315, 28269, 28224,
    28179, 28133, 28088, 28042, 27997, 27952, 27906, 27861, 27815, 27770, 27724, 27678,
    27633, 27587, 27542, 27496, 27450, 27405, 27359, 27313, 27268, 27222, 27176, 27131,
    27085, 27039, 26993, 26947, 26902, 26856, 26810, 26764, 26718, 26672, 26626, 26580,
    26534, 26488, 26442, 26396, 26350, 26304, 26258, 26212, 26166, 26120, 26074, 26028,
    25982, 25936, 25889, 25843, 25797, 25751, 25705, 25658, 25612, 25566, 25520, 25473,
    25427, 25381, 25334, 25288, 25241, 25195, 25149, 25102, 25056, 25009, 24963, 24916,
    24870, 24823, 24777, 24730, 24684, 24637, 24591, 24544, 24497, 24451, 24404, 24357,
    24311, 24264, 24217, 24171, 24124, 24077, 24030, 23984, 23937, 23890, 23843, 23796,
    23750, 23703, 23656, 23609, 23562, 23515, 23468, 23421, 23374, 23327, 23280, 23233,
    23186, 23139, 23092, 23045, 22998, 22951, 22904, 22857, 22810, 22763, 22716, 22668,
    22621, 22574, 22527, 22480, 22432, 22385, 22338, 22291, 22243, 22196, 22149, 22102,
    22054, 22007, 21960, 21912, 21865, 21817, 21770, 21723, 21675, 21628, 21580, 21533,
    21485, 21438, 21390, 21343, 21295, 21248, 21200, 21153, 21105, 21057, 21010, 20962,
    20915, 20867, 20819, 20772, 20724, 20676, 20629, 20581, 20533, 20485, 20438, 20390,
    20342, 20294, 20246, 20199, 20151, 20103, 20055, 20007, 19959, 19912, 19864, 19816,
    19768, 19720, 19672, 19624, 19576, 19528, 19480, 19432, 19384, 19336, 19288, 19240,
    19192, 19144, 19096, 19048, 19000, 18951, 18903, 18855, 18807, 18759, 18711, 18663,
    18614, 18566, 18518, 18470, 18421, 18373, 18325, 18277, 18228, 18180, 18132, 18084,
    18035, 17987, 17939, 17890, 17842, 17793, 17745, 17697, 17648, 17600, 17551, 17503,
    17455, 17406, 17358, 17309, 17261, 17212, 17164, 17115, 17067, 17018, 16970, 16921,
    16872, 16824, 16775, 16727, 16678, 16629, 16581, 16532, 16484, 16435, 16386, 16338,
    16289, 16240, 16191, 16143, 16094, 16045, 15997, 15948, 15899, 15850, 15802, 15753,
    15704, 15655, 15606, 15557, 15509, 15460, 15411, 15362, 15313, 15264, 15215, 15167,
    15118, 15069, 15020, 14971, 14922, 14873, 14824, 14775, 14726, 14677, 14628, 14579,
    14530, 14481, 14432, 14383, 14334, 14285, 14236, 14187, 14138, 14089, 14040, 13990,
    13941, 13892, 13843, 13794, 13745, 13696, 13647, 13597, 13548, 13499, 13450, 13401,
    13351, 13302, 13253, 13204, 13154, 13105, 13056, 13007, 12957, 12908, 12859, 12810,
    12760, 12711, 12662, 12612, 12563, 12514, 12464, 12415, 12366, 12316, 12267, 12218,
    12168, 12119, 12069, 12020, 11970, 11921, 11872, 11822, 11773, 11723, 11674, 11624,
    11575, 11525, 11476, 11426, 11377, 11327, 11278, 11228, 11179, 11129, 11080, 11030,
    10981, 10931, 10882, 10832, 10782, 10733, 10683, 10634, 10584, 10534, 10485, 10435,
    10386, 10336, 10286, 10237, 10187, 10137, 10088, 10038, 9988, 9939, 9889, 9839,
    9790, 9740, 9690, 9640, 9591, 9541, 9491, 9442, 9392, 9342, 9292, 9243,
    9193, 9143, 9093, 9043, 8994, 8944, 8894, 8844, 8794, 8745, 8695, 8645,
    8595, 8545, 8496, 8446, 8396, 8346, 8296, 8246, 8196, 8147, 8097, 8047,
    7997, 7947, 7897, 7847, 7797, 7747, 7697, 7648, 7598, 7548, 7498, 7448,
    7398, 7348, 7298, 7248, 7198, 7148, 7098, 7048, 6998, 6948, 6898, 6848,
    6798, 6748, 6698, 6648, 6598, 6548, 6498, 6448, 6398, 6348, 6298, 6248,
    6198, 6148, 6098, 6048, 5998, 5948, 5898, 5848, 5798, 5748, 5697, 5647,
    5597, 5547, 5497, 5447, 5397, 5347, 5297, 5247, 5197, 5146, 5096, 5046,
    4996, 4946, 4896, 4846, 4796, 4745, 4695, 4645, 4595, 4545, 4495, 4445,
    4394, 4344, 4294, 4244, 4194, 4144, 4093, 4043, 3993, 3943, 3893, 3843,
    3792, 3742, 3692, 3642, 3592, 3541, 3491, 3441, 3391, 3341, 3291, 3240,
    3190, 3140, 3090, 3039, 2989, 2939, 2889, 2839, 2788, 2738, 2688, 2638,
    2587, 2537, 2487, 2437, 2387, 2336, 2286, 2236, 2186, 2135, 2085, 2035,
    1985, 1934, 1884, 1834, 1784, 1733, 1683, 1633, 1583, 1532, 1482, 1432,
    1382, 1331, 1281, 1231, 1181, 1130, 1080, 1030, 980, 929, 879, 829,
    779, 728, 678, 628, 578, 527, 477, 427, 376, 326, 276, 226,
    175, 125, 75, 25,
];

const FINE_SINE_MAG_8: [u16; 1024] = [
    25, 75, 125, 175, 226, 276, 326, 376, 427, 477, 527, 578,
    628, 678, 728, 779, 829, 879, 929, 980, 1030, 1080, 1130, 1181,
    1231, 1281, 1331, 1382, 1432, 1482, 1532, 1583, 1633, 1683, 1733, 1784,
    1834, 1884, 1934, 1985, 2035, 2085, 2135, 2186, 2236, 2286, 2336, 2387,
    2437, 2487, 2537, 2587, 2638, 2688, 2738, 2788, 2839, 2889, 2939, 2989,
    3039, 3090, 3140, 3190, 3240, 3291, 3341, 3391, 3441, 3491, 3541, 3592,
    3642, 3692, 3742, 3792, 3843, 3893, 3943, 3993, 4043, 4093, 4144, 4194,
    4244, 4294, 4344, 4394, 4445, 4495, 4545, 4595, 4645, 4695, 4745, 4796,
    4846, 4896, 4946, 4996, 5046, 5096, 5146, 5197, 5247, 5297, 5347, 5397,
    5447, 5497, 5547, 5597, 5647, 5697, 5748, 5798, 5848, 5898, 5948, 5998,
    6048, 6098, 6148, 6198, 6248, 6298, 6348, 6398, 6448, 6498, 6548, 6598,
    6648, 6698, 6748, 6798, 6848, 6898, 6948, 6998, 7048, 7098, 7148, 7198,
    7248, 7298, 7348, 7398, 7448, 7498, 7548, 7598, 7648, 7697, 7747, 7797,
    7847, 7897, 7947, 7997, 8047, 8097, 8147, 8196, 8246, 8296, 8346, 8396,
    8446, 8496, 8545, 8595, 8645, 8695, 8745, 8794, 8844, 8894, 8944, 8994,
    9043, 9093, 9143, 9193, 9243, 9292, 9342, 9392, 9442, 9491, 9541, 9591,
    9640, 9690, 9740, 9790, 9839, 9889, 9939, 9988, 10038, 10088, 10137, 10187,
    10237, 10286, 10336, 10386, 10435, 10485, 10534, 10584, 10634, 10683, 10733, 10782,
    10832, 10882, 10931, 10981, 11030, 11080, 11129, 11179, 11228, 11278, 11327, 11377,
    11426, 11476, 11525, 11575, 11624, 11674, 11723, 11773, 11822, 11872, 11921, 11970,
    12020, 12069, 12119, 12168, 12218, 12267, 12316, 12366, 12415, 12464, 12514, 12563,
    12612, 12662, 12711, 12760, 12810, 12859, 12908, 12957, 13007, 13056, 13105, 13154,
    13204, 13253, 13302, 13351, 13401, 13450, 13499, 13548, 13597, 13647, 13696, 13745,
    13794, 13843, 13892, 13941, 13990, 14040, 14089, 14138, 14187, 14236, 14285, 14334,
    14383, 14432, 14481, 14530, 14579, 14628, 14677, 14726, 14775, 14824, 14873, 14922,
    14971, 15020, 15069, 15118, 15167, 15215, 15264, 15313, 15362, 15411, 15460, 15509,
    15557, 15606, 15655, 15704, 15753, 15802, 15850, 15899, 15948, 15997, 16045, 16094,
    16143, 16191, 16240, 16289, 16338, 16386, 16435, 16484, 16532, 16581, 16629, 16678,
    16727, 16775, 16824, 16872, 16921, 16970, 17018, 17067, 17115, 17164, 17212, 17261,
    17309, 17358, 17406, 17455, 17503, 17551, 17600, 17648, 17697, 17745, 17793, 17842,
    17890, 17939, 17987, 18035, 18084, 18132, 18180, 18228, 18277, 18325, 18373, 18421,
    18470, 18518, 18566, 18614, 18663, 18711, 18759, 18807, 18855, 18903, 18951, 19000,
    19048, 19096, 19144, 19192, 19240, 19288, 19336, 19384, 19432, 19480, 19528, 19576,
    19624, 19672, 19720, 19768, 19816, 19864, 19912, 19959, 20007, 20055, 20103, 20151,
    20199, 20246, 20294, 20342, 20390, 20438, 20485, 20533, 20581, 20629, 20676, 20724,
    20772, 20819, 20867, 20915, 20962, 21010, 21057, 21105, 21153, 21200, 21248, 21295,
    21343, 21390, 21438, 21485, 21533, 21580, 21628, 21675, 21723, 21770, 21817, 21865,
    21912, 21960, 22007, 22054, 22102, 22149, 22196, 22243, 22291, 22338, 22385, 22432,
    22480, 22527, 22574, 22621, 22668, 22716, 22763, 22810, 22857, 22904, 22951, 22998,
    23045, 23092, 23139, 23186, 23233, 23280, 23327, 23374, 23421, 23468, 23515, 23562,
    23609, 23656, 23703, 23750, 23796, 23843, 23890, 23937, 23984, 24030, 24077, 24124,
    24171, 24217, 24264, 24311, 24357, 24404, 24451, 24497, 24544, 24591, 24637, 24684,
    24730, 24777, 24823, 24870, 24916, 24963, 25009, 25056, 25102, 25149, 25195, 25241,
    25288, 25334, 25381, 25427, 25473, 25520, 25566, 25612, 25658, 25705, 25751, 25797,
    25843, 25889, 25936, 25982, 26028, 26074, 26120, 26166, 26212, 26258, 26304, 26350,
    26396, 26442, 26488, 26534, 26580, 26626, 26672, 26718, 26764, 26810, 26856, 26902,
    26947, 26993, 27039, 27085, 27131, 27176, 27222, 27268, 27313, 27359, 27405, 27450,
    27496, 27542, 27587, 27633, 27678, 27724, 27770, 27815, 27861, 27906, 27952, 27997,
    28042, 28088, 28133, 28179, 28224, 28269, 28315, 28360, 28405, 28451, 28496, 28541,
    28586, 28632, 28677, 28722, 28767, 28812, 28858, 28903, 28948, 28993, 29038, 29083,
    29128, 29173, 29218, 29263, 29308, 29353, 29398, 29443, 29488, 29533, 29577, 29622,
    29667, 29712, 29757, 29801, 29846, 29891, 29936, 29980, 30025, 30070, 30114, 30159,
    30204, 30248, 30293, 30337, 30382, 30426, 30471, 30515, 30560, 30604, 30649, 30693,
    30738, 30782, 30826, 30871, 30915, 30959, 31004, 31048, 31092, 31136, 31181, 31225,
    31269, 31313, 31357, 31402, 31446, 31490, 31534, 31578, 31622, 31666, 31710, 31754,
    31798, 31842, 31886, 31930, 31974, 32017, 32061, 32105, 32149, 32193, 32236, 32280,
    32324, 32368, 32411, 32455, 32499, 32542, 32586, 32630, 32673, 32717, 32760, 32804,
    32847, 32891, 32934, 32978, 33021, 33065, 33108, 33151, 33195, 33238, 33281, 33325,
    33368, 33411, 33454, 33498, 33541, 33584, 33627, 33670, 33713, 33756, 33799, 33843,
    33886, 33929, 33972, 34015, 34057, 34100, 34143, 34186, 34229, 34272, 34315, 34358,
    34400, 34443, 34486, 34529, 34571, 34614, 34657, 34699, 34742, 34785, 34827, 34870,
    34912, 34955, 34997, 35040, 35082, 35125, 35167, 35210, 35252, 35294, 35337, 35379,
    35421, 35464, 35506, 35548, 35590, 35633, 35675, 35717, 35759, 35801, 35843, 35885,
    35927, 35969, 36011, 36053, 36095, 36137, 36179, 36221, 36263, 36305, 36347, 36388,
    36430, 36472, 36514, 36555, 36597, 36639, 36681, 36722, 36764, 36805, 36847, 36889,
    36930, 36972, 37013, 37055, 37096, 37137, 37179, 37220, 37262, 37303, 37344, 37386,
    37427, 37468, 37509, 37551, 37592, 37633, 37674, 37715, 37756, 37797, 37838, 37879,
    37920, 37961, 38002, 38043, 38084, 38125, 38166, 38207, 38248, 38288, 38329, 38370,
    38411, 38451, 38492, 38533, 38573, 38614, 38655, 38695, 38736, 38776, 38817, 38857,
    38898, 38938, 38979, 39019, 39059, 39100, 39140, 39180, 39221, 39261, 39301, 39341,
    39382, 39422, 39462, 39502, 39542, 39582, 39622, 39662, 39702, 39742, 39782, 39822,
    39862, 39902, 39942, 39982, 40021, 40061, 40101, 40141, 40180, 40220, 40260, 40300,
    40339, 40379, 40418, 40458, 40497, 40537, 40576, 40616, 40655, 40695, 40734, 40773,
    40813, 40852, 40891, 40931, 40970, 41009, 41048, 41087, 41127, 41166, 41205, 41244,
    41283, 41322, 41361, 41400, 41439, 41478, 41517, 41556, 41595, 41633, 41672, 41711,
    41750, 41788, 41827, 41866, 41904, 41943, 41982, 42020, 42059, 42097, 42136, 42174,
    42213, 42251, 42290, 42328, 42366, 42405, 42443, 42481, 42520, 42558, 42596, 42634,
    42672, 42711, 42749, 42787, 42825, 42863, 42901, 42939, 42977, 43015, 43053, 43091,
    43128, 43166, 43204, 43242, 43280, 43317, 43355, 43393, 43430, 43468, 43506, 43543,
    43581, 43618, 43656, 43693, 43731, 43768, 43806, 43843, 43880, 43918, 43955, 43992,
    44029, 44067, 44104, 44141, 44178, 44215, 44252, 44289, 44326, 44363, 44400, 44437,
    44474, 44511, 44548, 44585, 44622, 44659, 44695, 44732, 44769, 44806, 44842, 44879,
    44915, 44952, 44989, 45025, 45062, 45098, 45135, 45171, 45207, 45244, 45280, 45316,
    45353, 45389, 45425, 45462, 45498, 45534, 45570, 45606, 45642, 45678, 45714, 45750,
    45786, 45822, 45858, 45894, 45930, 45966, 46002, 46037, 46073, 46109, 46145, 46180,
    46216, 46252, 46287, 46323,
];

const FINE_SINE_MAG_9: [u16; 1024] = [
    46358, 46394, 46429, 46465, 46500, 46536, 46571, 46606, 46642, 46677, 46712, 46747,
    46783, 46818, 46853, 46888, 46923, 46958, 46993, 47028, 47063, 47098, 47133, 47168,
    47203, 47238, 47273, 47308, 47342, 47377, 47412, 47446, 47481, 47516, 47550, 47585,
    47619, 47654, 47688, 47723, 47757, 47792, 47826, 47860, 47895, 47929, 47963, 47998,
    48032, 48066, 48100, 48134, 48168, 48202, 48237, 48271, 48304, 48338, 48372, 48406,
    48440, 48474, 48508, 48542, 48575, 48609, 48643, 48676, 48710, 48744, 48777, 48811,
    48844, 48878, 48911, 48945, 48978, 49012, 49045, 49078, 49112, 49145, 49178, 49211,
    49244, 49278, 49311, 49344, 49377, 49410, 49443, 49476, 49509, 49542, 49575, 49608,
    49640, 49673, 49706, 49739, 49771, 49804, 49837, 49869, 49902, 49935, 49967, 50000,
    50032, 50065, 50097, 50129, 50162, 50194, 50226, 50259, 50291, 50323, 50355, 50387,
    50420, 50452, 50484, 50516, 50548, 50580, 50612, 50644, 50675, 50707, 50739, 50771,
    50803, 50834, 50866, 50898, 50929, 50961, 50993, 51024, 51056, 51087, 51119, 51150,
    51182, 51213, 51244, 51276, 51307, 51338, 51369, 51401, 51432, 51463, 51494, 51525,
    51556, 51587, 51618, 51649, 51680, 51711, 51742, 51773, 51803, 51834, 51865, 51896,
    51926, 51957, 51988, 52018, 52049, 52079, 52110, 52140, 52171, 52201, 52231, 52262,
    52292, 52322, 52353, 52383, 52413, 52443, 52473, 52503, 52534, 52564, 52594, 52624,
    52653, 52683, 52713, 52743, 52773, 52803, 52832, 52862, 52892, 52922, 52951, 52981,
    53010, 53040, 53069, 53099, 53128, 53158, 53187, 53216, 53246, 53275, 53304, 53334,
    53363, 53392, 53421, 53450, 53479, 53508, 53537, 53566, 53595, 53624, 53653, 53682,
    53711, 53739, 53768, 53797, 53826, 53854, 53883, 53911, 53940, 53969, 53997, 54026,
    54054, 54082, 54111, 54139, 54167, 54196, 54224, 54252, 54280, 54308, 54337, 54365,
    54393, 54421, 54449, 54477, 54505, 54533, 54560, 54588, 54616, 54644, 54672, 54699,
    54727, 54755, 54782, 54810, 54837, 54865, 54892, 54920, 54947, 54974, 55002, 55029,
    55056, 55084, 55111, 55138, 55165, 55192, 55219, 55246, 55274, 55300, 55327, 55354,
    55381, 55408, 55435, 55462, 55489, 55515, 55542, 55569, 55595, 55622, 55648, 55675,
    55701, 55728, 55754, 55781, 55807, 55833, 55860, 55886, 55912, 55938, 55965, 55991,
    56017, 56043, 56069, 56095, 56121, 56147, 56173, 56199, 56225, 56250, 56276, 56302,
    56328, 56353, 56379, 56404, 56430, 56456, 56481, 56507, 56532, 56557, 56583, 56608,
    56633, 56659, 56684, 56709, 56734, 56760, 56785, 56810, 56835, 56860, 56885, 56910,
    56935, 56959, 56984, 57009, 57034, 57059, 57083, 57108, 57133, 57157, 57182, 57206,
    57231, 57255, 57280, 57304, 57329, 57353, 57377, 57402, 57426, 57450, 57474, 57498,
    57522, 57546, 57570, 57594, 57618, 57642, 57666, 57690, 57714, 57738, 57762, 57785,
    57809, 57833, 57856, 57880, 57903, 57927, 57950, 57974, 57997, 58021, 58044, 58067,
    58091, 58114, 58137, 58160, 58183, 58207, 58230, 58253, 58276, 58299, 58322, 58345,
    58367, 58390, 58413, 58436, 58459, 58481, 58504, 58527, 58549, 58572, 58594, 58617,
    58639, 58662, 58684, 58706, 58729, 58751, 58773, 58795, 58818, 58840, 58862, 58884,
    58906, 58928, 58950, 58972, 58994, 59016, 59038, 59059, 59081, 59103, 59125, 59146,
    59168, 59190, 59211, 59233, 59254, 59276, 59297, 59318, 59340, 59361, 59382, 59404,
    59425, 59446, 59467, 59488, 59509, 59530, 59551, 59572, 59593, 59614, 59635, 59656,
    59677, 59697, 59718, 59739, 59759, 59780, 59801, 59821, 59842, 59862, 59883, 59903,
    59923, 59944, 59964, 59984, 60004, 60025, 60045, 60065, 60085, 60105, 60125, 60145,
    60165, 60185, 60205, 60225, 60244, 60264, 60284, 60304, 60323, 60343, 60363, 60382,
    60402, 60421, 60441, 60460, 60479, 60499, 60518, 60537, 60556, 60576, 60595, 60614,
    60633, 60652, 60671, 60690, 60709, 60728, 60747, 60766, 60785, 60803, 60822, 60841,
    60859, 60878, 60897, 60915, 60934, 60952, 60971, 60989, 61007, 61026, 61044, 61062,
    61081, 61099, 61117, 61135, 61153, 61171, 61189, 61207, 61225, 61243, 61261, 61279,
    61297, 61314, 61332, 61350, 61367, 61385, 61403, 61420, 61438, 61455, 61473, 61490,
    61507, 61525, 61542, 61559, 61577, 61594, 61611, 61628, 61645, 61662, 61679, 61696,
    61713, 61730, 61747, 61764, 61780, 61797, 61814, 61831, 61847, 61864, 61880, 61897,
    61913, 61930, 61946, 61963, 61979, 61995, 62012, 62028, 62044, 62060, 62076, 62092,
    62108, 62125, 62141, 62156, 62172, 62188, 62204, 62220, 62236, 62251, 62267, 62283,
    62298, 62314, 62329, 62345, 62360, 62376, 62391, 62407, 62422, 62437, 62453, 62468,
    62483, 62498, 62513, 62528, 62543, 62558, 62573, 62588, 62603, 62618, 62633, 62648,
    62662, 62677, 62692, 62706, 62721, 62735, 62750, 62764, 62779, 62793, 62808, 62822,
    62836, 62850, 62865, 62879, 62893, 62907, 62921, 62935, 62949, 62963, 62977, 62991,
    63005, 63019, 63032, 63046, 63060, 63074, 63087, 63101, 63114, 63128, 63141, 63155,
    63168, 63182, 63195, 63208, 63221, 63235, 63248, 63261, 63274, 63287, 63300, 63313,
    63326, 63339, 63352, 63365, 63378, 63390, 63403, 63416, 63429, 63441, 63454, 63466,
    63479, 63491, 63504, 63516, 63528, 63541, 63553, 63565, 63578, 63590, 63602, 63614,
    63626, 63638, 63650, 63662, 63674, 63686, 63698, 63709, 63721, 63733, 63745, 63756,
    63768, 63779, 63791, 63803, 63814, 63825, 63837, 63848, 63859, 63871, 63882, 63893,
    63904, 63915, 63927, 63938, 63949, 63960, 63971, 63981, 63992, 64003, 64014, 64025,
    64035, 64046, 64057, 64067, 64078, 64088, 64099, 64109, 64120, 64130, 64140, 64151,
    64161, 64171, 64181, 64192, 64202, 64212, 64222, 64232, 64242, 64252, 64261, 64271,
    64281, 64291, 64301, 64310, 64320, 64330, 64339, 64349, 64358, 64368, 64377, 64387,
    64396, 64405, 64414, 64424, 64433, 64442, 64451, 64460, 64469, 64478, 64487, 64496,
    64505, 64514, 64523, 64532, 64540, 64549, 64558, 64566, 64575, 64584, 64592, 64601,
    64609, 64617, 64626, 64634, 64642, 64651, 64659, 64667, 64675, 64683, 64691, 64699,
    64707, 64715, 64723, 64731, 64739, 64747, 64754, 64762, 64770, 64777, 64785, 64793,
    64800, 64808, 64815, 64822, 64830, 64837, 64844, 64852, 64859, 64866, 64873, 64880,
    64887, 64895, 64902, 64908, 64915, 64922, 64929, 64936, 64943, 64949, 64956, 64963,
    64969, 64976, 64982, 64989, 64995, 65002, 65008, 65015, 65021, 65027, 65033, 65040,
    65046, 65052, 65058, 65064, 65070, 65076, 65082, 65088, 65094, 65099, 65105, 65111,
    65117, 65122, 65128, 65133, 65139, 65144, 65150, 65155, 65161, 65166, 65171, 65177,
    65182, 65187, 65192, 65197, 65202, 65207, 65212, 65217, 65222, 65227, 65232, 65237,
    65242, 65246, 65251, 65256, 65260, 65265, 65270, 65274, 65279, 65283, 65287, 65292,
    65296, 65300, 65305, 65309, 65313, 65317, 65321, 65325, 65329, 65333, 65337, 65341,
    65345, 65349, 65352, 65356, 65360, 65363, 65367, 65371, 65374, 65378, 65381, 65385,
    65388, 65391, 65395, 65398, 65401, 65404, 65408, 65411, 65414, 65417, 65420, 65423,
    65426, 65429, 65431, 65434, 65437, 65440, 65442, 65445, 65448, 65450, 65453, 65455,
    65458, 65460, 65463, 65465, 65467, 65470, 65472, 65474, 65476, 65478, 65480, 65482,
    65484, 65486, 65488, 65490, 65492, 65494, 65496, 65497, 65499, 65501, 65502, 65504,
    65505, 65507, 65508, 65510, 65511, 65513, 65514, 65515, 65516, 65518, 65519, 65520,
    65521, 65522, 65523, 65524, 65525, 65526, 65527, 65527, 65528, 65529, 65530, 65530,
    65531, 65531, 65532, 65532, 65533, 65533, 65534, 65534, 65534, 65535, 65535, 65535,
    65535, 65535, 65535, 65535,
];

const TAN_TO_ANGLE_0: [u32; 1024] = [
    0, 333772, 667544, 1001316, 1335087, 1668857, 2002627, 2336396, 2670163, 3003930, 3337695, 3671458,
    4005219, 4338979, 4672737, 5006492, 5340245, 5673996, 6007743, 6341488, 6675230, 7008969, 7342704, 7676436,
    8010164, 8343888, 8677609, 9011325, 9345037, 9678744, 10012447, 10346145, 10679838, 11013526, 11347209, 11680887,
    12014559, 12348225, 12681885, 13015539, 13349187, 13682829, 14016464, 14350092, 14683714, 15017328, 15350936, 15684536,
    16018129, 16351714, 16685291, 17018860, 17352421, 17685974, 18019519, 18353055, 18686582, 19020100, 19353609, 19687109,
    20020600, 20354081, 20687552, 21021014, 21354465, 21687907, 22021338, 22354758, 22688168, 23021567, 23354956, 23688333,
    24021698, 24355053, 24688395, 25021726, 25355046, 25688353, 26021647, 26354930, 26688200, 27021457, 27354701, 27687933,
    28021151, 28354356, 28687547, 29020725, 29353889, 29687039, 30020175, 30353296, 30686403, 31019496, 31352574, 31685637,
    32018685, 32351718, 32684735, 33017737, 33350723, 33683693, 34016647, 34349585, 34682507, 35015413, 35348301, 35681173,
    36014028, 36346866, 36679687, 37012490, 37345276, 37678044, 38010794, 38343526, 38676240, 39008935, 39341612, 39674271,
    40006910, 40339531, 40672133, 41004715, 41337277, 41669821, 42002344, 42334848, 42667331, 42999794, 43332237, 43664660,
    43997061, 44329442, 44661802, 44994141, 45326458, 45658754, 45991028, 46323281, 46655512, 46987720, 47319906, 47652070,
    47984212, 48316331, 48648426, 48980499, 49312549, 49644576, 49976578, 50308558, 50640513, 50972445, 51304353, 51636236,
    51968095, 52299929, 52631739, 52963524, 53295284, 53627018, 53958728, 54290411, 54622070, 54953702, 55285309, 55616889,
    55948444, 56279972, 56611473, 56942948, 57274396, 57605816, 57937210, 58268576, 58599915, 58931227, 59262510, 59593766,
    59924994, 60256193, 60587364, 60918507, 61249621, 61580706, 61911762, 62242789, 62573787, 62904755, 63235694, 63566603,
    63897482, 64228331, 64559150, 64889938, 65220696, 65551424, 65882120, 66212786, 66543421, 66874024, 67204596, 67535137,
    67865646, 68196123, 68526568, 68856981, 69187361, 69517709, 69848025, 70178308, 70508558, 70838775, 71168959, 71499109,
    71829226, 72159309, 72489359, 72819375, 73149356, 73479304, 73809217, 74139095, 74468939, 74798748, 75128522, 75458261,
    75787964, 76117633, 76447265, 76776862, 77106424, 77435949, 77765438, 78094891, 78424307, 78753687, 79083030, 79412336,
    79741605, 80070837, 80400031, 80729189, 81058308, 81387390, 81716434, 82045440, 82374407, 82703337, 83032227, 83361080,
    83689893, 84018668, 84347403, 84676099, 85004756, 85333373, 85661951, 85990489, 86318987, 86647445, 86975863, 87304240,
    87632577, 87960873, 88289129, 88617343, 88945516, 89273648, 89601739, 89929788, 90257796, 90585762, 90913686, 91241567,
    91569407, 91897204, 92224959, 92552671, 92880340, 93207966, 93535549, 93863089, 94190586, 94518039, 94845448, 95172814,
    95500135, 95827413, 96154646, 96481835, 96808980, 97136079, 97463134, 97790145, 98117110, 98444030, 98770904, 99097733,
    99424517, 99751254, 100077946, 100404592, 100731191, 101057745, 101384251, 101710712, 102037125, 102363492, 102689811, 103016084,
    103342309, 103668486, 103994617, 104320699, 104646734, 104972720, 105298659, 105624549, 105950391, 106276184, 106601929, 106927624,
    107253271, 107578869, 107904418, 108229917, 108555367, 108880767, 109206117, 109531417, 109856668, 110181868, 110507018, 110832118,
    111157167, 111482165, 111807112, 112132009, 112456854, 112781648, 113106391, 113431082, 113755721, 114080309, 114404845, 114729328,
    115053760, 115378139, 115702466, 116026740, 116350962, 116675130, 116999246, 117323308, 117647318, 117971273, 118295176, 118619025,
    118942819, 119266560, 119590247, 119913880, 120237459, 120560983, 120884452, 121207867, 121531227, 121854532, 122177782, 122500976,
    122824116, 123147200, 123470228, 123793200, 124116117, 124438977, 124761782, 125084530, 125407222, 125729857, 126052436, 126374958,
    126697423, 127019830, 127342181, 127664475, 127986711, 128308889, 128631010, 128953073, 129275078, 129597025, 129918914, 130240744,
    130562517, 130884230, 131205885, 131527481, 131849018, 132170496, 132491915, 132813274, 133134574, 133455815, 133776996, 134098117,
    134419178, 134740179, 135061119, 135382000, 135702820, 136023579, 136344278, 136664916, 136985493, 137306009, 137626463, 137946857,
    138267189, 138587459, 138907668, 139227815, 139547900, 139867922, 140187883, 140507782, 140827618, 141147391, 141467102, 141786750,
    142106335, 142425858, 142745317, 143064712, 143384045, 143703314, 144022519, 144341660, 144660738, 144979751, 145298701, 145617586,
    145936407, 146255164, 146573856, 146892483, 147211045, 147529543, 147847975, 148166342, 148484644, 148802881, 149121052, 149439157,
    149757197, 150075171, 150393078, 150710920, 151028695, 151346404, 151664047, 151981623, 152299132, 152616575, 152933950, 153251259,
    153568500, 153885674, 154202781, 154519820, 154836791, 155153695, 155470531, 155787299, 156103999, 156420631, 156737194, 157053689,
    157370116, 157686473, 158002763, 158318983, 158635134, 158951216, 159267229, 159583173, 159899047, 160214851, 160530586, 160846251,
    161161847, 161477372, 161792827, 162108212, 162423527, 162738771, 163053945, 163369048, 163684080, 163999041, 164313932, 164628751,
    164943499, 165258176, 165572781, 165887315, 166201777, 166516168, 166830486, 167144733, 167458907, 167773010, 168087040, 168400997,
    168714883, 169028695, 169342435, 169656102, 169969696, 170283217, 170596665, 170910040, 171223341, 171536569, 171849723, 172162803,
    172475810, 172788743, 173101602, 173414387, 173727097, 174039734, 174352296, 174664783, 174977196, 175289534, 175601797, 175913985,
    176226098, 176538137, 176850100, 177161987, 177473799, 177785536, 178097197, 178408782, 178720291, 179031725, 179343082, 179654363,
    179965568, 180276696, 180587749, 180898724, 181209623, 181520445, 181831190, 182141859, 182452450, 182762964, 183073401, 183383760,
    183694042, 184004247, 184314374, 184624423, 184934394, 185244287, 185554102, 185863839, 186173498, 186483079, 186792581, 187102004,
    187411349, 187720615, 188029803, 188338911, 188647941, 188956891, 189265762, 189574554, 189883266, 190191899, 190500453, 190808926,
    191117320, 191425634, 191733868, 192042022, 192350096, 192658089, 192966003, 193273835, 193581588, 193889259, 194196850, 194504360,
    194811789, 195119138, 195426405, 195733591, 196040695, 196347719, 196654661, 196961521, 197268300, 197574997, 197881612, 198188145,
    198494596, 198800965, 199107252, 199413457, 199719579, 200025619, 200331577, 200637451, 200943243, 201248953, 201554579, 201860122,
    202165583, 202470960, 202776254, 203081464, 203386591, 203691635, 203996595, 204301471, 204606264, 204910973, 205215597, 205520138,
    205824595, 206128967, 206433255, 206737459, 207041579, 207345613, 207649563, 207953429, 208257210, 208560905, 208864516, 209168042,
    209471483, 209774838, 210078108, 210381293, 210684392, 210987406, 211290334, 211593176, 211895933, 212198604, 212501188, 212803687,
    213106100, 213408426, 213710666, 214012820, 214314887, 214616868, 214918762, 215220569, 215522290, 215823924, 216125471, 216426931,
    216728303, 217029589, 217330787, 217631898, 217932922, 218233858, 218534707, 218835467, 219136141, 219436726, 219737224, 220037633,
    220337955, 220638188, 220938333, 221238390, 221538359, 221838239, 222138031, 222437734, 222737348, 223036874, 223336311, 223635659,
    223934919, 224234089, 224533170, 224832162, 225131064, 225429878, 225728602, 226027236, 226325781, 226624236, 226922602, 227220878,
    227519064, 227817160, 228115166, 228413082, 228710908, 229008644, 229306289, 229603844, 229901309, 230198683, 230495967, 230793160,
    231090262, 231387274, 231684195, 231981025, 232277764, 232574411, 232870968, 233167434, 233463808, 233760091, 234056282, 234352382,
    234648391, 234944308, 235240133, 235535867, 235831508, 236127058, 236422516, 236717882, 237013156, 237308337, 237603427, 237898424,
    238193329, 238488141, 238782861, 239077489, 239372024, 239666466, 239960815, 240255072, 240549235, 240843306, 241137284, 241431169,
    241724960, 242018659, 242312264, 242605776, 242899194, 243192519, 243485751, 243778888, 244071933, 244364883, 244657740, 244950503,
    245243172, 245535747, 245828228, 246120615, 246412908, 246705107, 246997212, 247289222, 247581137, 247872959, 248164686, 248456318,
    248747855, 249039298, 249330647, 249621900, 249913059, 250204122, 250495091, 250785965, 251076743, 251367426, 251658015, 251948508,
    252238905, 252529207, 252819414, 253109525, 253399541, 253689461, 253979285, 254269014, 254558647, 254848184, 255137625, 255426970,
    255716219, 256005372, 256294429, 256583390, 256872255, 257161023, 257449695, 257738270, 258026749, 258315132, 258603418, 258891607,
    259179700, 259467696, 259755595, 260043398, 260331103, 260618712, 260906223, 261193638, 261480955, 261768176, 262055299, 262342325,
    262629253, 262916084, 263202818, 263489454, 263775993, 264062435, 264348778, 264635024, 264921172, 265207223, 265493176, 265779031,
    266064788, 266350447, 266636008, 266921470, 267206835, 267492102, 267777270, 268062341, 268347313, 268632186, 268916961, 269201638,
    269486216, 269770696, 270055077, 270339359, 270623543, 270907628, 271191615, 271475502, 271759291, 272042980, 272326571, 272610063,
    272893455, 273176749, 273459943, 273743039, 274026035, 274308931, 274591729, 274874427, 275157025, 275439525, 275721924, 276004224,
    276286425, 276568526, 276850527, 277132429, 277414230, 277695932, 277977534, 278259037, 278540439, 278821741, 279102944, 279384046,
    279665048, 279945950, 280226752, 280507454, 280788055, 281068556, 281348957, 281629257, 281909457, 282189557, 282469556, 282749454,
    283029252, 283308949, 283588546, 283868041, 284147437, 284426731, 284705924, 284985017, 285264009, 285542900, 285821690, 286100378,
    286378966, 286657453, 286935838, 287214123, 287492306, 287770388, 288048369, 288326248, 288604026, 288881703, 289159278, 289436752,
    289714125, 289991396, 290268565, 290545633, 290822599, 291099463, 291376226, 291652887, 291929446, 292205903, 292482259, 292758513,
    293034664, 293310714, 293586662, 293862508, 294138252, 294413894, 294689433, 294964871, 295240206, 295515439, 295790570, 296065599,
    296340525, 296615349, 296890071, 297164690, 297439207, 297713622, 297987934, 298262143, 298536250, 298810254, 299084156, 299357955,
    299631651, 299905245, 300178736, 300452124, 300725410, 300998592, 301271672, 301544649, 301817523, 302090294, 302362962, 302635527,
    302907989, 303180348, 303452604, 303724757, 303996806, 304268753, 304540596, 304812336, 305083973, 305355507, 305626937, 305898264,
    306169488, 306440608, 306711625, 306982539, 307253349, 307524055, 307794658, 308065158, 308335554, 308605846, 308876035, 309146120,
    309416102, 309685979, 309955754, 310225424, 310494991, 310764453, 311033813, 311303068, 311572219, 311841267, 312110210, 312379050,
    312647786, 312916418, 313184946, 313453370, 313721690, 313989905, 314258017, 314526025, 314793928, 315061728, 315329423, 315597014,
    315864501, 316131883, 316399162, 316666336,
];

const TAN_TO_ANGLE_1: [u32; 1024] = [
    316933406, 317200371, 317467232, 317733989, 318000642, 318267190, 318533634, 318799973, 319066208, 319332338, 319598364, 319864285,
    320130102, 320395815, 320661422, 320926926, 321192324, 321457618, 321722808, 321987892, 322252872, 322517748, 322782518, 323047184,
    323311746, 323576202, 323840554, 324104801, 324368943, 324632980, 324896913, 325160740, 325424463, 325688081, 325951594, 326215002,
    326478305, 326741503, 327004596, 327267585, 327530468, 327793246, 328055919, 328318487, 328580951, 328843309, 329105562, 329367710,
    329629752, 329891690, 330153523, 330415250, 330676872, 330938389, 331199801, 331461108, 331722309, 331983406, 332244397, 332505282,
    332766063, 333026738, 333287308, 333547773, 333808132, 334068386, 334328534, 334588578, 334848516, 335108348, 335368076, 335627697,
    335887214, 336146625, 336405930, 336665131, 336924225, 337183215, 337442098, 337700877, 337959550, 338218117, 338476579, 338734935,
    338993186, 339251331, 339509371, 339767305, 340025134, 340282857, 340540475, 340797987, 341055393, 341312694, 341569889, 341826978,
    342083962, 342340841, 342597613, 342854280, 343110842, 343367298, 343623648, 343879892, 344136031, 344392064, 344647991, 344903813,
    345159529, 345415139, 345670644, 345926042, 346181336, 346436523, 346691605, 346946580, 347201451, 347456215, 347710874, 347965427,
    348219874, 348474215, 348728451, 348982580, 349236604, 349490523, 349744335, 349998042, 350251643, 350505138, 350758527, 351011810,
    351264988, 351518060, 351771026, 352023886, 352276640, 352529289, 352781832, 353034268, 353286599, 353538825, 353790944, 354042957,
    354294865, 354546667, 354798363, 355049953, 355301437, 355552816, 355804088, 356055255, 356306316, 356557271, 356808120, 357058864,
    357309501, 357560033, 357810458, 358060778, 358310992, 358561101, 358811103, 359060999, 359310790, 359560475, 359810054, 360059527,
    360308894, 360558155, 360807311, 361056361, 361305304, 361554142, 361802875, 362051501, 362300021, 362548436, 362796745, 363044948,
    363293045, 363541036, 363788922, 364036701, 364284375, 364531943, 364779405, 365026762, 365274012, 365521157, 365768196, 366015129,
    366261957, 366508678, 366755294, 367001804, 367248208, 367494507, 367740699, 367986786, 368232767, 368478643, 368724412, 368970076,
    369215634, 369461087, 369706433, 369951674, 370196809, 370441839, 370686763, 370931581, 371176293, 371420900, 371665401, 371909796,
    372154086, 372398270, 372642348, 372886320, 373130187, 373373949, 373617604, 373861154, 374104599, 374347937, 374591171, 374834298,
    375077320, 375320237, 375563047, 375805753, 376048352, 376290846, 376533235, 376775518, 377017695, 377259767, 377501734, 377743594,
    377985350, 378227000, 378468544, 378709983, 378951317, 379192545, 379433667, 379674684, 379915596, 380156402, 380397103, 380637698,
    380878188, 381118573, 381358852, 381599026, 381839095, 382079058, 382318916, 382558669, 382798316, 383037858, 383277294, 383516626,
    383755852, 383994973, 384233988, 384472899, 384711704, 384950404, 385188999, 385427488, 385665872, 385904152, 386142326, 386380395,
    386618358, 386856217, 387093970, 387331619, 387569162, 387806600, 388043934, 388281162, 388518285, 388755303, 388992216, 389229024,
    389465727, 389702325, 389938818, 390175207, 390411490, 390647668, 390883742, 391119710, 391355574, 391591333, 391826987, 392062536,
    392297980, 392533320, 392768555, 393003685, 393238710, 393473630, 393708446, 393943157, 394177763, 394412265, 394646662, 394880954,
    395115141, 395349224, 395583203, 395817077, 396050846, 396284510, 396518070, 396751526, 396984877, 397218123, 397451265, 397684303,
    397917236, 398150065, 398382789, 398615408, 398847924, 399080335, 399312642, 399544844, 399776942, 400008935, 400240825, 400472610,
    400704291, 400935867, 401167340, 401398708, 401629972, 401861132, 402092187, 402323139, 402553986, 402784729, 403015369, 403245904,
    403476335, 403706662, 403936885, 404167004, 404397019, 404626930, 404856737, 405086441, 405316040, 405545535, 405774927, 406004215,
    406233399, 406462479, 406691455, 406920328, 407149097, 407377762, 407606323, 407834781, 408063135, 408291385, 408519532, 408747575,
    408975514, 409203350, 409431083, 409658712, 409886237, 410113659, 410340977, 410568192, 410795304, 411022312, 411249216, 411476018,
    411702716, 411929310, 412155802, 412382190, 412608475, 412834656, 413060734, 413286710, 413512582, 413738350, 413964016, 414189578,
    414415038, 414640394, 414865648, 415090798, 415315845, 415540789, 415765631, 415990369, 416215005, 416439537, 416663967, 416888294,
    417112518, 417336639, 417560657, 417784573, 418008386, 418232096, 418455703, 418679208, 418902610, 419125910, 419349107, 419572201,
    419795193, 420018082, 420240869, 420463553, 420686135, 420908614, 421130991, 421353266, 421575438, 421797508, 422019476, 422241341,
    422463104, 422684764, 422906323, 423127779, 423349133, 423570385, 423791535, 424012583, 424233528, 424454372, 424675114, 424895753,
    425116291, 425336726, 425557060, 425777292, 425997422, 426217450, 426437376, 426657200, 426876923, 427096544, 427316063, 427535480,
    427754796, 427974010, 428193123, 428412134, 428631043, 428849851, 429068557, 429287162, 429505665, 429724067, 429942367, 430160566,
    430378664, 430596660, 430814555, 431032349, 431250041, 431467632, 431685122, 431902511, 432119799, 432336985, 432554071, 432771055,
    432987938, 433204721, 433421402, 433637982, 433854461, 434070840, 434287117, 434503294, 434719370, 434935345, 435151219, 435366993,
    435582666, 435798238, 436013709, 436229080, 436444350, 436659520, 436874589, 437089557, 437304425, 437519193, 437733860, 437948427,
    438162893, 438377259, 438591524, 438805690, 439019755, 439233720, 439447584, 439661349, 439875013, 440088577, 440302041, 440515405,
    440728669, 440941832, 441154896, 441367860, 441580724, 441793488, 442006152, 442218717, 442431181, 442643546, 442855811, 443067976,
    443280042, 443492008, 443703874, 443915641, 444127308, 444338876, 444550344, 444761712, 444972981, 445184151, 445395221, 445606192,
    445817064, 446027836, 446238509, 446449082, 446659557, 446869932, 447080208, 447290385, 447500463, 447710442, 447920322, 448130103,
    448339785, 448549368, 448758852, 448968237, 449177523, 449386710, 449595799, 449804789, 450013680, 450222472, 450431166, 450639761,
    450848258, 451056656, 451264955, 451473156, 451681259, 451889263, 452097168, 452304975, 452512684, 452720295, 452927807, 453135221,
    453342536, 453549754, 453756873, 453963895, 454170818, 454377643, 454584370, 454790999, 454997530, 455203963, 455410298, 455616535,
    455822675, 456028716, 456234660, 456440506, 456646255, 456851905, 457057458, 457262914, 457468272, 457673532, 457878695, 458083760,
    458288728, 458493598, 458698371, 458903047, 459107625, 459312106, 459516490, 459720776, 459924966, 460129058, 460333053, 460536951,
    460740752, 460944456, 461148063, 461351572, 461554985, 461758301, 461961521, 462164643, 462367669, 462570597, 462773429, 462976165,
    463178803, 463381346, 463583791, 463786140, 463988392, 464190548, 464392608, 464594571, 464796437, 464998207, 465199881, 465401459,
    465602940, 465804325, 466005614, 466206807, 466407904, 466608904, 466809809, 467010617, 467211330, 467411947, 467612467, 467812892,
    468013221, 468213454, 468413591, 468613633, 468813579, 469013429, 469213183, 469412842, 469612406, 469811873, 470011246, 470210522,
    470409704, 470608790, 470807781, 471006676, 471205476, 471404181, 471602790, 471801304, 471999724, 472198048, 472396277, 472594410,
    472792449, 472990393, 473188242, 473385996, 473583655, 473781220, 473978689, 474176064, 474373344, 474570529, 474767620, 474964616,
    475161517, 475358324, 475555037, 475751655, 475948178, 476144607, 476340942, 476537182, 476733328, 476929380, 477125337, 477321200,
    477516969, 477712644, 477908225, 478103712, 478299105, 478494404, 478689608, 478884719, 479079736, 479274660, 479469489, 479664225,
    479858867, 480053415, 480247869, 480442230, 480636498, 480830671, 481024752, 481218738, 481412632, 481606432, 481800138, 481993751,
    482187271, 482380698, 482574031, 482767272, 482960419, 483153473, 483346434, 483539301, 483732076, 483924758, 484117347, 484309843,
    484502246, 484694557, 484886774, 485078899, 485270931, 485462871, 485654717, 485846471, 486038133, 486229702, 486421179, 486612563,
    486803855, 486995054, 487186161, 487377176, 487568098, 487758928, 487949666, 488140312, 488330866, 488521327, 488711697, 488901974,
    489092160, 489282254, 489472255, 489662165, 489851983, 490041710, 490231344, 490420887, 490610338, 490799698, 490988966, 491178142,
    491367227, 491556220, 491745122, 491933932, 492122652, 492311279, 492499816, 492688261, 492876615, 493064878, 493253049, 493441130,
    493629119, 493817018, 494004825, 494192542, 494380167, 494567702, 494755146, 494942499, 495129761, 495316932, 495504013, 495691003,
    495877903, 496064712, 496251430, 496438058, 496624595, 496811042, 496997399, 497183665, 497369841, 497555927, 497741922, 497927827,
    498113642, 498299367, 498485002, 498670547, 498856002, 499041366, 499226641, 499411826, 499596921, 499781927, 499966842, 500151668,
    500336404, 500521050, 500705607, 500890074, 501074452, 501258740, 501442939, 501627048, 501811068, 501994998, 502178839, 502362591,
    502546254, 502729827, 502913311, 503096706, 503280012, 503463229, 503646357, 503829396, 504012346, 504195207, 504377980, 504560663,
    504743258, 504925764, 505108181, 505290509, 505472749, 505654901, 505836964, 506018938, 506200824, 506382621, 506564330, 506745951,
    506927483, 507108927, 507290283, 507471550, 507652730, 507833821, 508014824, 508195740, 508376567, 508557306, 508737957, 508918521,
    509098996, 509279384, 509459684, 509639896, 509820021, 510000058, 510180007, 510359869, 510539643, 510719329, 510898929, 511078440,
    511257865, 511437202, 511616452, 511795614, 511974689, 512153677, 512332578, 512511392, 512690119, 512868759, 513047311, 513225777,
    513404156, 513582448, 513760653, 513938772, 514116803, 514294748, 514472606, 514650378, 514828063, 515005661, 515183173, 515360599,
    515537938, 515715190, 515892356, 516069436, 516246430, 516423337, 516600159, 516776894, 516953542, 517130105, 517306582, 517482973,
    517659277, 517835496, 518011629, 518187676, 518363638, 518539513, 518715303, 518891007, 519066625, 519242158, 519417606, 519592967,
    519768243, 519943434, 520118540, 520293560, 520468494, 520643343, 520818108, 520992786, 521167380, 521341889, 521516312, 521690650,
    521864904, 522039072, 522213156, 522387154, 522561068, 522734897, 522908641, 523082300, 523255875, 523429364, 523602770, 523776091,
    523949327, 524122478, 524295546, 524468528, 524641427, 524814241, 524986971, 525159616, 525332177, 525504654, 525677047, 525849356,
    526021581, 526193721, 526365778, 526537751, 526709640, 526881445, 527053166, 527224803, 527396357, 527567826, 527739213, 527910515,
    528081734, 528252869, 528423921, 528594890, 528765775, 528936576, 529107295, 529277929, 529448481, 529618949, 529789335, 529959637,
    530129856, 530299991, 530470044, 530640014, 530809901, 530979705, 531149426, 531319064, 531488619, 531658092, 531827482, 531996789,
    532166014, 532335156, 532504215, 532673192, 532842087, 533010899, 533179628, 533348276, 533516840, 533685323, 533853723, 534022042,
    534190278, 534358431, 534526503, 534694493, 534862401, 535030227, 535197970, 535365632, 535533213, 535700711, 535868127, 536035462,
    536202715, 536369887, 536536977, 536703985,
];

const TAN_TO_ANGLE_2: [u32; 1] = [
    536870912,
];

} // verus!
