use vstd::prelude::*;

use crate::laws::words_non_empty;

verus! {

/// Adjectives drawn from when no custom list is given.
pub const DEFAULT_ADJECTIVES: &'static [&'static str; 96] = &[
    "brisk", "airy", "crisp", "gleaming", "quaint", "rustic", "mellow", "sunny", "breezy",
    "cozy", "dusky", "glossy", "hazy", "humble", "jagged", "keen", "lofty", "lush", "mossy",
    "nimble", "opal", "pale", "placid", "prickly", "radiant", "rugged", "sandy", "scarlet",
    "serene", "sheer", "silken", "silver", "sleepy", "slender", "smoky", "sober", "spare",
    "speckled", "spry", "stark", "starry", "stormy", "sturdy", "subtle", "swift", "tawny",
    "tender", "tidy", "tranquil", "velvety", "vivid", "wary", "wavy", "wintry", "witty",
    "woolly", "zesty", "amber", "azure", "balmy", "brave", "bright", "candid", "chilly",
    "clever", "copper", "dainty", "dapper", "eager", "early", "faint", "fluffy", "frozen",
    "gilded", "golden", "grand", "hollow", "hushed", "ivory", "kind", "lucid", "merry",
    "mighty", "nocturnal", "olive", "plucky", "quick", "rosy", "rusty", "salty", "shady",
    "sharp", "smooth", "dewy", "fleet", "noble",
];

/// Nouns drawn from when no custom list is given.
pub const DEFAULT_NOUNS: &'static [&'static str; 97] = &[
    "acorn", "aspen", "basin", "anchor", "arrow", "badger", "barn", "beacon", "bell", "birch",
    "bluff", "boulder", "bramble", "bridge", "canyon", "canopy", "cavern", "cedar", "chime",
    "cliff", "clover", "comet", "coral", "cove", "crane", "creek", "crest", "dune", "eagle",
    "echo", "elm", "ember", "falcon", "fern", "fjord", "garden", "geyser", "glacier", "grove",
    "gull", "harbor", "hawk", "heron", "island", "ivy", "jade", "kettle", "lagoon", "lantern",
    "larch", "lark", "lichen", "lily", "marsh", "meteor", "mill", "mist", "moss", "nest", "oak",
    "oasis", "orchard", "otter", "owl", "panda", "pebble", "pepper", "petal", "plain", "planet",
    "prairie", "quail", "quartz", "raven", "reef", "ridge", "robin", "sage", "sail", "shell",
    "shore", "sparrow", "spruce", "stone", "stream", "summit", "swan", "thistle", "tide",
    "trail", "tulip", "valley", "vapor", "willow", "delta", "pinecone", "rapids",
];

/// Every word of the default lists has at least one character.
pub proof fn lemma_default_words_non_empty()
    ensures
        words_non_empty(DEFAULT_ADJECTIVES@),
        words_non_empty(DEFAULT_NOUNS@),
{
    assert(DEFAULT_ADJECTIVES@[0]@.len() > 0) by {
        reveal_strlit("brisk");
    }
    assert(DEFAULT_ADJECTIVES@[1]@.len() > 0) by {
        reveal_strlit("airy");
    }
    assert(DEFAULT_ADJECTIVES@[2]@.len() > 0) by {
        reveal_strlit("crisp");
    }
    assert(DEFAULT_ADJECTIVES@[3]@.len() > 0) by {
        reveal_strlit("gleaming");
    }
    assert(DEFAULT_ADJECTIVES@[4]@.len() > 0) by {
        reveal_strlit("quaint");
    }
    assert(DEFAULT_ADJECTIVES@[5]@.len() > 0) by {
        reveal_strlit("rustic");
    }
    assert(DEFAULT_ADJECTIVES@[6]@.len() > 0) by {
        reveal_strlit("mellow");
    }
    assert(DEFAULT_ADJECTIVES@[7]@.len() > 0) by {
        reveal_strlit("sunny");
    }
    assert(DEFAULT_ADJECTIVES@[8]@.len() > 0) by {
        reveal_strlit("breezy");
    }
    assert(DEFAULT_ADJECTIVES@[9]@.len() > 0) by {
        reveal_strlit("cozy");
    }
    assert(DEFAULT_ADJECTIVES@[10]@.len() > 0) by {
        reveal_strlit("dusky");
    }
    assert(DEFAULT_ADJECTIVES@[11]@.len() > 0) by {
        reveal_strlit("glossy");
    }
    assert(DEFAULT_ADJECTIVES@[12]@.len() > 0) by {
        reveal_strlit("hazy");
    }
    assert(DEFAULT_ADJECTIVES@[13]@.len() > 0) by {
        reveal_strlit("humble");
    }
    assert(DEFAULT_ADJECTIVES@[14]@.len() > 0) by {
        reveal_strlit("jagged");
    }
    assert(DEFAULT_ADJECTIVES@[15]@.len() > 0) by {
        reveal_strlit("keen");
    }
    assert(DEFAULT_ADJECTIVES@[16]@.len() > 0) by {
        reveal_strlit("lofty");
    }
    assert(DEFAULT_ADJECTIVES@[17]@.len() > 0) by {
        reveal_strlit("lush");
    }
    assert(DEFAULT_ADJECTIVES@[18]@.len() > 0) by {
        reveal_strlit("mossy");
    }
    assert(DEFAULT_ADJECTIVES@[19]@.len() > 0) by {
        reveal_strlit("nimble");
    }
    assert(DEFAULT_ADJECTIVES@[20]@.len() > 0) by {
        reveal_strlit("opal");
    }
    assert(DEFAULT_ADJECTIVES@[21]@.len() > 0) by {
        reveal_strlit("pale");
    }
    assert(DEFAULT_ADJECTIVES@[22]@.len() > 0) by {
        reveal_strlit("placid");
    }
    assert(DEFAULT_ADJECTIVES@[23]@.len() > 0) by {
        reveal_strlit("prickly");
    }
    assert(DEFAULT_ADJECTIVES@[24]@.len() > 0) by {
        reveal_strlit("radiant");
    }
    assert(DEFAULT_ADJECTIVES@[25]@.len() > 0) by {
        reveal_strlit("rugged");
    }
    assert(DEFAULT_ADJECTIVES@[26]@.len() > 0) by {
        reveal_strlit("sandy");
    }
    assert(DEFAULT_ADJECTIVES@[27]@.len() > 0) by {
        reveal_strlit("scarlet");
    }
    assert(DEFAULT_ADJECTIVES@[28]@.len() > 0) by {
        reveal_strlit("serene");
    }
    assert(DEFAULT_ADJECTIVES@[29]@.len() > 0) by {
        reveal_strlit("sheer");
    }
    assert(DEFAULT_ADJECTIVES@[30]@.len() > 0) by {
        reveal_strlit("silken");
    }
    assert(DEFAULT_ADJECTIVES@[31]@.len() > 0) by {
        reveal_strlit("silver");
    }
    assert(DEFAULT_ADJECTIVES@[32]@.len() > 0) by {
        reveal_strlit("sleepy");
    }
    assert(DEFAULT_ADJECTIVES@[33]@.len() > 0) by {
        reveal_strlit("slender");
    }
    assert(DEFAULT_ADJECTIVES@[34]@.len() > 0) by {
        reveal_strlit("smoky");
    }
    assert(DEFAULT_ADJECTIVES@[35]@.len() > 0) by {
        reveal_strlit("sober");
    }
    assert(DEFAULT_ADJECTIVES@[36]@.len() > 0) by {
        reveal_strlit("spare");
    }
    assert(DEFAULT_ADJECTIVES@[37]@.len() > 0) by {
        reveal_strlit("speckled");
    }
    assert(DEFAULT_ADJECTIVES@[38]@.len() > 0) by {
        reveal_strlit("spry");
    }
    assert(DEFAULT_ADJECTIVES@[39]@.len() > 0) by {
        reveal_strlit("stark");
    }
    assert(DEFAULT_ADJECTIVES@[40]@.len() > 0) by {
        reveal_strlit("starry");
    }
    assert(DEFAULT_ADJECTIVES@[41]@.len() > 0) by {
        reveal_strlit("stormy");
    }
    assert(DEFAULT_ADJECTIVES@[42]@.len() > 0) by {
        reveal_strlit("sturdy");
    }
    assert(DEFAULT_ADJECTIVES@[43]@.len() > 0) by {
        reveal_strlit("subtle");
    }
    assert(DEFAULT_ADJECTIVES@[44]@.len() > 0) by {
        reveal_strlit("swift");
    }
    assert(DEFAULT_ADJECTIVES@[45]@.len() > 0) by {
        reveal_strlit("tawny");
    }
    assert(DEFAULT_ADJECTIVES@[46]@.len() > 0) by {
        reveal_strlit("tender");
    }
    assert(DEFAULT_ADJECTIVES@[47]@.len() > 0) by {
        reveal_strlit("tidy");
    }
    assert(DEFAULT_ADJECTIVES@[48]@.len() > 0) by {
        reveal_strlit("tranquil");
    }
    assert(DEFAULT_ADJECTIVES@[49]@.len() > 0) by {
        reveal_strlit("velvety");
    }
    assert(DEFAULT_ADJECTIVES@[50]@.len() > 0) by {
        reveal_strlit("vivid");
    }
    assert(DEFAULT_ADJECTIVES@[51]@.len() > 0) by {
        reveal_strlit("wary");
    }
    assert(DEFAULT_ADJECTIVES@[52]@.len() > 0) by {
        reveal_strlit("wavy");
    }
    assert(DEFAULT_ADJECTIVES@[53]@.len() > 0) by {
        reveal_strlit("wintry");
    }
    assert(DEFAULT_ADJECTIVES@[54]@.len() > 0) by {
        reveal_strlit("witty");
    }
    assert(DEFAULT_ADJECTIVES@[55]@.len() > 0) by {
        reveal_strlit("woolly");
    }
    assert(DEFAULT_ADJECTIVES@[56]@.len() > 0) by {
        reveal_strlit("zesty");
    }
    assert(DEFAULT_ADJECTIVES@[57]@.len() > 0) by {
        reveal_strlit("amber");
    }
    assert(DEFAULT_ADJECTIVES@[58]@.len() > 0) by {
        reveal_strlit("azure");
    }
    assert(DEFAULT_ADJECTIVES@[59]@.len() > 0) by {
        reveal_strlit("balmy");
    }
    assert(DEFAULT_ADJECTIVES@[60]@.len() > 0) by {
        reveal_strlit("brave");
    }
    assert(DEFAULT_ADJECTIVES@[61]@.len() > 0) by {
        reveal_strlit("bright");
    }
    assert(DEFAULT_ADJECTIVES@[62]@.len() > 0) by {
        reveal_strlit("candid");
    }
    assert(DEFAULT_ADJECTIVES@[63]@.len() > 0) by {
        reveal_strlit("chilly");
    }
    assert(DEFAULT_ADJECTIVES@[64]@.len() > 0) by {
        reveal_strlit("clever");
    }
    assert(DEFAULT_ADJECTIVES@[65]@.len() > 0) by {
        reveal_strlit("copper");
    }
    assert(DEFAULT_ADJECTIVES@[66]@.len() > 0) by {
        reveal_strlit("dainty");
    }
    assert(DEFAULT_ADJECTIVES@[67]@.len() > 0) by {
        reveal_strlit("dapper");
    }
    assert(DEFAULT_ADJECTIVES@[68]@.len() > 0) by {
        reveal_strlit("eager");
    }
    assert(DEFAULT_ADJECTIVES@[69]@.len() > 0) by {
        reveal_strlit("early");
    }
    assert(DEFAULT_ADJECTIVES@[70]@.len() > 0) by {
        reveal_strlit("faint");
    }
    assert(DEFAULT_ADJECTIVES@[71]@.len() > 0) by {
        reveal_strlit("fluffy");
    }
    assert(DEFAULT_ADJECTIVES@[72]@.len() > 0) by {
        reveal_strlit("frozen");
    }
    assert(DEFAULT_ADJECTIVES@[73]@.len() > 0) by {
        reveal_strlit("gilded");
    }
    assert(DEFAULT_ADJECTIVES@[74]@.len() > 0) by {
        reveal_strlit("golden");
    }
    assert(DEFAULT_ADJECTIVES@[75]@.len() > 0) by {
        reveal_strlit("grand");
    }
    assert(DEFAULT_ADJECTIVES@[76]@.len() > 0) by {
        reveal_strlit("hollow");
    }
    assert(DEFAULT_ADJECTIVES@[77]@.len() > 0) by {
        reveal_strlit("hushed");
    }
    assert(DEFAULT_ADJECTIVES@[78]@.len() > 0) by {
        reveal_strlit("ivory");
    }
    assert(DEFAULT_ADJECTIVES@[79]@.len() > 0) by {
        reveal_strlit("kind");
    }
    assert(DEFAULT_ADJECTIVES@[80]@.len() > 0) by {
        reveal_strlit("lucid");
    }
    assert(DEFAULT_ADJECTIVES@[81]@.len() > 0) by {
        reveal_strlit("merry");
    }
    assert(DEFAULT_ADJECTIVES@[82]@.len() > 0) by {
        reveal_strlit("mighty");
    }
    assert(DEFAULT_ADJECTIVES@[83]@.len() > 0) by {
        reveal_strlit("nocturnal");
    }
    assert(DEFAULT_ADJECTIVES@[84]@.len() > 0) by {
        reveal_strlit("olive");
    }
    assert(DEFAULT_ADJECTIVES@[85]@.len() > 0) by {
        reveal_strlit("plucky");
    }
    assert(DEFAULT_ADJECTIVES@[86]@.len() > 0) by {
        reveal_strlit("quick");
    }
    assert(DEFAULT_ADJECTIVES@[87]@.len() > 0) by {
        reveal_strlit("rosy");
    }
    assert(DEFAULT_ADJECTIVES@[88]@.len() > 0) by {
        reveal_strlit("rusty");
    }
    assert(DEFAULT_ADJECTIVES@[89]@.len() > 0) by {
        reveal_strlit("salty");
    }
    assert(DEFAULT_ADJECTIVES@[90]@.len() > 0) by {
        reveal_strlit("shady");
    }
    assert(DEFAULT_ADJECTIVES@[91]@.len() > 0) by {
        reveal_strlit("sharp");
    }
    assert(DEFAULT_ADJECTIVES@[92]@.len() > 0) by {
        reveal_strlit("smooth");
    }
    assert(DEFAULT_ADJECTIVES@[93]@.len() > 0) by {
        reveal_strlit("dewy");
    }
    assert(DEFAULT_ADJECTIVES@[94]@.len() > 0) by {
        reveal_strlit("fleet");
    }
    assert(DEFAULT_ADJECTIVES@[95]@.len() > 0) by {
        reveal_strlit("noble");
    }
    assert(DEFAULT_NOUNS@[0]@.len() > 0) by {
        reveal_strlit("acorn");
    }
    assert(DEFAULT_NOUNS@[1]@.len() > 0) by {
        reveal_strlit("aspen");
    }
    assert(DEFAULT_NOUNS@[2]@.len() > 0) by {
        reveal_strlit("basin");
    }
    assert(DEFAULT_NOUNS@[3]@.len() > 0) by {
        reveal_strlit("anchor");
    }
    assert(DEFAULT_NOUNS@[4]@.len() > 0) by {
        reveal_strlit("arrow");
    }
    assert(DEFAULT_NOUNS@[5]@.len() > 0) by {
        reveal_strlit("badger");
    }
    assert(DEFAULT_NOUNS@[6]@.len() > 0) by {
        reveal_strlit("barn");
    }
    assert(DEFAULT_NOUNS@[7]@.len() > 0) by {
        reveal_strlit("beacon");
    }
    assert(DEFAULT_NOUNS@[8]@.len() > 0) by {
        reveal_strlit("bell");
    }
    assert(DEFAULT_NOUNS@[9]@.len() > 0) by {
        reveal_strlit("birch");
    }
    assert(DEFAULT_NOUNS@[10]@.len() > 0) by {
        reveal_strlit("bluff");
    }
    assert(DEFAULT_NOUNS@[11]@.len() > 0) by {
        reveal_strlit("boulder");
    }
    assert(DEFAULT_NOUNS@[12]@.len() > 0) by {
        reveal_strlit("bramble");
    }
    assert(DEFAULT_NOUNS@[13]@.len() > 0) by {
        reveal_strlit("bridge");
    }
    assert(DEFAULT_NOUNS@[14]@.len() > 0) by {
        reveal_strlit("canyon");
    }
    assert(DEFAULT_NOUNS@[15]@.len() > 0) by {
        reveal_strlit("canopy");
    }
    assert(DEFAULT_NOUNS@[16]@.len() > 0) by {
        reveal_strlit("cavern");
    }
    assert(DEFAULT_NOUNS@[17]@.len() > 0) by {
        reveal_strlit("cedar");
    }
    assert(DEFAULT_NOUNS@[18]@.len() > 0) by {
        reveal_strlit("chime");
    }
    assert(DEFAULT_NOUNS@[19]@.len() > 0) by {
        reveal_strlit("cliff");
    }
    assert(DEFAULT_NOUNS@[20]@.len() > 0) by {
        reveal_strlit("clover");
    }
    assert(DEFAULT_NOUNS@[21]@.len() > 0) by {
        reveal_strlit("comet");
    }
    assert(DEFAULT_NOUNS@[22]@.len() > 0) by {
        reveal_strlit("coral");
    }
    assert(DEFAULT_NOUNS@[23]@.len() > 0) by {
        reveal_strlit("cove");
    }
    assert(DEFAULT_NOUNS@[24]@.len() > 0) by {
        reveal_strlit("crane");
    }
    assert(DEFAULT_NOUNS@[25]@.len() > 0) by {
        reveal_strlit("creek");
    }
    assert(DEFAULT_NOUNS@[26]@.len() > 0) by {
        reveal_strlit("crest");
    }
    assert(DEFAULT_NOUNS@[27]@.len() > 0) by {
        reveal_strlit("dune");
    }
    assert(DEFAULT_NOUNS@[28]@.len() > 0) by {
        reveal_strlit("eagle");
    }
    assert(DEFAULT_NOUNS@[29]@.len() > 0) by {
        reveal_strlit("echo");
    }
    assert(DEFAULT_NOUNS@[30]@.len() > 0) by {
        reveal_strlit("elm");
    }
    assert(DEFAULT_NOUNS@[31]@.len() > 0) by {
        reveal_strlit("ember");
    }
    assert(DEFAULT_NOUNS@[32]@.len() > 0) by {
        reveal_strlit("falcon");
    }
    assert(DEFAULT_NOUNS@[33]@.len() > 0) by {
        reveal_strlit("fern");
    }
    assert(DEFAULT_NOUNS@[34]@.len() > 0) by {
        reveal_strlit("fjord");
    }
    assert(DEFAULT_NOUNS@[35]@.len() > 0) by {
        reveal_strlit("garden");
    }
    assert(DEFAULT_NOUNS@[36]@.len() > 0) by {
        reveal_strlit("geyser");
    }
    assert(DEFAULT_NOUNS@[37]@.len() > 0) by {
        reveal_strlit("glacier");
    }
    assert(DEFAULT_NOUNS@[38]@.len() > 0) by {
        reveal_strlit("grove");
    }
    assert(DEFAULT_NOUNS@[39]@.len() > 0) by {
        reveal_strlit("gull");
    }
    assert(DEFAULT_NOUNS@[40]@.len() > 0) by {
        reveal_strlit("harbor");
    }
    assert(DEFAULT_NOUNS@[41]@.len() > 0) by {
        reveal_strlit("hawk");
    }
    assert(DEFAULT_NOUNS@[42]@.len() > 0) by {
        reveal_strlit("heron");
    }
    assert(DEFAULT_NOUNS@[43]@.len() > 0) by {
        reveal_strlit("island");
    }
    assert(DEFAULT_NOUNS@[44]@.len() > 0) by {
        reveal_strlit("ivy");
    }
    assert(DEFAULT_NOUNS@[45]@.len() > 0) by {
        reveal_strlit("jade");
    }
    assert(DEFAULT_NOUNS@[46]@.len() > 0) by {
        reveal_strlit("kettle");
    }
    assert(DEFAULT_NOUNS@[47]@.len() > 0) by {
        reveal_strlit("lagoon");
    }
    assert(DEFAULT_NOUNS@[48]@.len() > 0) by {
        reveal_strlit("lantern");
    }
    assert(DEFAULT_NOUNS@[49]@.len() > 0) by {
        reveal_strlit("larch");
    }
    assert(DEFAULT_NOUNS@[50]@.len() > 0) by {
        reveal_strlit("lark");
    }
    assert(DEFAULT_NOUNS@[51]@.len() > 0) by {
        reveal_strlit("lichen");
    }
    assert(DEFAULT_NOUNS@[52]@.len() > 0) by {
        reveal_strlit("lily");
    }
    assert(DEFAULT_NOUNS@[53]@.len() > 0) by {
        reveal_strlit("marsh");
    }
    assert(DEFAULT_NOUNS@[54]@.len() > 0) by {
        reveal_strlit("meteor");
    }
    assert(DEFAULT_NOUNS@[55]@.len() > 0) by {
        reveal_strlit("mill");
    }
    assert(DEFAULT_NOUNS@[56]@.len() > 0) by {
        reveal_strlit("mist");
    }
    assert(DEFAULT_NOUNS@[57]@.len() > 0) by {
        reveal_strlit("moss");
    }
    assert(DEFAULT_NOUNS@[58]@.len() > 0) by {
        reveal_strlit("nest");
    }
    assert(DEFAULT_NOUNS@[59]@.len() > 0) by {
        reveal_strlit("oak");
    }
    assert(DEFAULT_NOUNS@[60]@.len() > 0) by {
        reveal_strlit("oasis");
    }
    assert(DEFAULT_NOUNS@[61]@.len() > 0) by {
        reveal_strlit("orchard");
    }
    assert(DEFAULT_NOUNS@[62]@.len() > 0) by {
        reveal_strlit("otter");
    }
    assert(DEFAULT_NOUNS@[63]@.len() > 0) by {
        reveal_strlit("owl");
    }
    assert(DEFAULT_NOUNS@[64]@.len() > 0) by {
        reveal_strlit("panda");
    }
    assert(DEFAULT_NOUNS@[65]@.len() > 0) by {
        reveal_strlit("pebble");
    }
    assert(DEFAULT_NOUNS@[66]@.len() > 0) by {
        reveal_strlit("pepper");
    }
    assert(DEFAULT_NOUNS@[67]@.len() > 0) by {
        reveal_strlit("petal");
    }
    assert(DEFAULT_NOUNS@[68]@.len() > 0) by {
        reveal_strlit("plain");
    }
    assert(DEFAULT_NOUNS@[69]@.len() > 0) by {
        reveal_strlit("planet");
    }
    assert(DEFAULT_NOUNS@[70]@.len() > 0) by {
        reveal_strlit("prairie");
    }
    assert(DEFAULT_NOUNS@[71]@.len() > 0) by {
        reveal_strlit("quail");
    }
    assert(DEFAULT_NOUNS@[72]@.len() > 0) by {
        reveal_strlit("quartz");
    }
    assert(DEFAULT_NOUNS@[73]@.len() > 0) by {
        reveal_strlit("raven");
    }
    assert(DEFAULT_NOUNS@[74]@.len() > 0) by {
        reveal_strlit("reef");
    }
    assert(DEFAULT_NOUNS@[75]@.len() > 0) by {
        reveal_strlit("ridge");
    }
    assert(DEFAULT_NOUNS@[76]@.len() > 0) by {
        reveal_strlit("robin");
    }
    assert(DEFAULT_NOUNS@[77]@.len() > 0) by {
        reveal_strlit("sage");
    }
    assert(DEFAULT_NOUNS@[78]@.len() > 0) by {
        reveal_strlit("sail");
    }
    assert(DEFAULT_NOUNS@[79]@.len() > 0) by {
        reveal_strlit("shell");
    }
    assert(DEFAULT_NOUNS@[80]@.len() > 0) by {
        reveal_strlit("shore");
    }
    assert(DEFAULT_NOUNS@[81]@.len() > 0) by {
        reveal_strlit("sparrow");
    }
    assert(DEFAULT_NOUNS@[82]@.len() > 0) by {
        reveal_strlit("spruce");
    }
    assert(DEFAULT_NOUNS@[83]@.len() > 0) by {
        reveal_strlit("stone");
    }
    assert(DEFAULT_NOUNS@[84]@.len() > 0) by {
        reveal_strlit("stream");
    }
    assert(DEFAULT_NOUNS@[85]@.len() > 0) by {
        reveal_strlit("summit");
    }
    assert(DEFAULT_NOUNS@[86]@.len() > 0) by {
        reveal_strlit("swan");
    }
    assert(DEFAULT_NOUNS@[87]@.len() > 0) by {
        reveal_strlit("thistle");
    }
    assert(DEFAULT_NOUNS@[88]@.len() > 0) by {
        reveal_strlit("tide");
    }
    assert(DEFAULT_NOUNS@[89]@.len() > 0) by {
        reveal_strlit("trail");
    }
    assert(DEFAULT_NOUNS@[90]@.len() > 0) by {
        reveal_strlit("tulip");
    }
    assert(DEFAULT_NOUNS@[91]@.len() > 0) by {
        reveal_strlit("valley");
    }
    assert(DEFAULT_NOUNS@[92]@.len() > 0) by {
        reveal_strlit("vapor");
    }
    assert(DEFAULT_NOUNS@[93]@.len() > 0) by {
        reveal_strlit("willow");
    }
    assert(DEFAULT_NOUNS@[94]@.len() > 0) by {
        reveal_strlit("delta");
    }
    assert(DEFAULT_NOUNS@[95]@.len() > 0) by {
        reveal_strlit("pinecone");
    }
    assert(DEFAULT_NOUNS@[96]@.len() > 0) by {
        reveal_strlit("rapids");
    }
}

} // verus!
