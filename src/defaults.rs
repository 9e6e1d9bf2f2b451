//! The built-in signature database.
use vstd::prelude::*;
use crate::detector::{has_name, CheatDetector};
use crate::signature::CheatInfo;
use crate::sync::{detector_model, InfoModel, TableModel};
use crate::text::views_of;

verus! {

/// The views of a sequence of string slices.
pub open spec fn slice_views(v: Seq<&str>) -> Seq<Seq<char>> {
    v.map_values(|s: &str| s@)
}

/// One built-in signature under its identifier, sizes in tenths of a KiB.
pub open spec fn builtin_entry(
    name: &str,
    directories: Seq<&str>,
    classes: Seq<&str>,
    exclude_dirs: Seq<&str>,
    sizes: Seq<u64>,
    description: &str,
    strict_mode: bool,
    min_conditions: nat,
) -> (Seq<char>, InfoModel) {
    (
        name@,
        InfoModel {
            directories: slice_views(directories),
            classes: slice_views(classes),
            exclude_dirs: slice_views(exclude_dirs),
            sizes,
            description: description@,
            strict_mode,
            min_conditions,
        },
    )
}

/// The built-in signatures, in the order in which they are weighed.
pub open spec fn builtin_table() -> TableModel {
    Seq::empty()
        .push(builtin_entry(
            "DoomsDay",
            seq!["net/java/"],
            seq!["i.class"],
            seq!["org/apache/", "com/google/", "io/netty/", "net/minecraft/", "net/minecraftforge/", "optifine/", "javax/"],
            Seq::empty(),
            "DoomsDay чит (опасный)",
            true,
            2,
        ))
        .push(builtin_entry(
            "Freecam",
            seq!["net/xolt/freecam/"],
            seq!["freecam.class"],
            Seq::empty(),
            seq![420u64, 740u64, 10470u64, 10480u64, 10690u64, 11040u64, 11220u64],
            "Freecam мод",
            false,
            2,
        ))
        .push(builtin_entry(
            "Freecam2",
            seq!["com/zergatul/freecam"],
            seq!["FreeCam.class"],
            Seq::empty(),
            seq![420u64, 740u64, 10470u64, 10480u64, 10690u64, 11040u64, 11220u64],
            "Freecam мод (вариант 2)",
            false,
            2,
        ))
        .push(builtin_entry(
            "NekoClient",
            seq!["net/redteadev/nekoclient/"],
            seq!["NekoClient.class"],
            Seq::empty(),
            seq![400u64],
            "NekoClient Ghost",
            false,
            2,
        ))
        .push(builtin_entry(
            "SeedCracker",
            seq!["kaptainwutax/seedcracker/"],
            seq!["SeedCracker.class"],
            Seq::empty(),
            seq![6070u64],
            "SeedCracker",
            false,
            2,
        ))
        .push(builtin_entry(
            "Britva",
            seq!["britva/britva/", "me/britva/myst/"],
            seq!["britva.class"],
            Seq::empty(),
            seq![12070u64, 7820u64, 240u64, 45030u64],
            "Britva Ghost/AutoMyst",
            false,
            2,
        ))
        .push(builtin_entry(
            "Inventory Move",
            seq!["me/pieking1215/invmove/", "me/pieking1215/"],
            seq!["InvMove.class"],
            Seq::empty(),
            seq![3310u64],
            "Inventory Move",
            false,
            2,
        ))
        .push(builtin_entry(
            "WorldDownloader",
            seq!["wdl/"],
            seq!["WorldBackup.class"],
            Seq::empty(),
            seq![5740u64],
            "WorldDownloader",
            false,
            2,
        ))
        .push(builtin_entry(
            "AutoBuy",
            seq!["me/lithium/autobuy/", "ru/xorek/nbtautobuy/"],
            seq!["autobuy.class", "buyhelper.class"],
            Seq::empty(),
            seq![1430u64, 3010u64, 3980u64, 73100u64],
            "AutoBuy читы",
            false,
            2,
        ))
        .push(builtin_entry(
            "BedrockBricker",
            seq!["net/mcreator/bedrockmod", "net/anawesomguy/breakingbedrock"],
            seq!["BedrockBlock.class"],
            Seq::empty(),
            seq![418u64],
            "Bedrock Bricker мод",
            false,
            2,
        ))
        .push(builtin_entry(
            "ViaVersion",
            seq!["com/viaversion/fabric/common"],
            seq!["ViaFabric.class"],
            Seq::empty(),
            seq![50310u64],
            "ViaVersion мод",
            false,
            2,
        ))
        .push(builtin_entry(
            "DoubleHotbar",
            seq!["com/sidezbros/double_hotbar"],
            seq!["DoubleHotbar.class"],
            Seq::empty(),
            seq![290u64, 350u64, 360u64, 370u64, 420u64, 430u64],
            "Double Hotbar мод",
            false,
            2,
        ))
        .push(builtin_entry(
            "ElytraSwap",
            seq!["net/szum123321/elytra_swap", "com/saolghra/elytraswapper", "io/github/jumperonjava/jjelytraswap"],
            seq!["ElytraSwap.class", "Elytraswapper.class", "ConfigScreen.class"],
            Seq::empty(),
            seq![5680u64],
            "Elytra Swap мод",
            false,
            2,
        ))
        .push(builtin_entry(
            "ArmorHotswap",
            seq!["com/loucaskreger/armorhotswap", "heyblack/betterarmorswap/mixin"],
            seq!["ArmorHotswap.class", "ClientPlayerInteractionManagerMixin.class"],
            Seq::empty(),
            seq![190u64, 200u64, 210u64, 280u64, 290u64],
            "Armor Hotswap мод",
            false,
            2,
        ))
        .push(builtin_entry(
            "ChestLocator",
            seq!["com/github/hexomod/chestlocator"],
            seq!["Z.class", "z.class", "Y.class", "y.class"],
            Seq::empty(),
            seq![8700u64],
            "Chest Locator мод",
            false,
            2,
        ))
        .push(builtin_entry(
            "TopkaAutoBuyV1",
            seq!["topka/product"],
            Seq::empty(),
            Seq::empty(),
            seq![480u64],
            "Topka AutoBuy v1 (бан за хранение)",
            false,
            2,
        ))
        .push(builtin_entry(
            "NoHurtCam DanilSimX.jar",
            seq!["nohurtcam/"],
            seq!["ML.class"],
            Seq::empty(),
            seq![950u64],
            "NoHurtCam DanilSimX.jar хитбоксы",
            false,
            1,
        ))
        .push(builtin_entry(
            "GUMBALLOFFMODE",
            seq!["com/moandjiezana/toml"],
            seq!["WriterContext.class"],
            seq!["org/apache/", "com/google/", "io/netty/", "net/minecraft/", "net/minecraftforge/", "optifine/", "javax/"],
            seq![27010u64],
            "GUMBALLOFFMODE мод",
            true,
            2,
        ))
        .push(builtin_entry(
            "LibrarianTradeFinder",
            seq!["de/greenman999"],
            seq!["LibrarianTrade.class"],
            Seq::empty(),
            seq![940u64, 1000u64, 1010u64, 32030u64],
            "Librarian Trade Finder мод",
            false,
            2,
        ))
        .push(builtin_entry(
            "AutoAttack",
            seq!["com/tfar/autoattack", "vin35/autoattack"],
            seq!["AutoAttack.class"],
            Seq::empty(),
            seq![40u64, 770u64],
            "Auto Attack мод",
            false,
            2,
        ))
        .push(builtin_entry(
            "EntityOutliner",
            seq!["net/entityoutliner"],
            seq!["EntityOutliner.class"],
            Seq::empty(),
            seq![320u64, 330u64, 390u64, 410u64],
            "Entity Outliner мод",
            false,
            2,
        ))
        .push(builtin_entry(
            "CameraUtils",
            seq!["de/maxhenkel/camerautils"],
            seq!["CameraUtils.class"],
            Seq::empty(),
            seq![880u64, 2960u64, 3170u64, 3440u64, 3480u64],
            "Camera Utils мод",
            false,
            2,
        ))
        .push(builtin_entry(
            "WallJumpTXF",
            seq!["com/jahirtrap/walljump", "genandnic/walljump"],
            seq!["WallJump.class"],
            Seq::empty(),
            seq![1550u64, 1590u64, 1600u64, 1610u64, 1620u64, 1630u64, 1650u64],
            "Wall-Jump TXF мод",
            false,
            2,
        ))
        .push(builtin_entry(
            "CrystalOptimizer",
            seq!["com/marlowcrystal/marlowcrystal"],
            seq!["MarlowCrystal.class", "CrystalOptimizer.class"],
            Seq::empty(),
            seq![900u64, 970u64],
            "Crystal Optimizer мод",
            false,
            2,
        ))
        .push(builtin_entry(
            "SoupAPI",
            seq!["org/ChSP/soupapi"],
            seq!["SoupApi.class"],
            Seq::empty(),
            seq![9420u64],
            "Soup API (бан за хранение)",
            false,
            2,
        ))
        .push(builtin_entry(
            "MeteorClient",
            Seq::empty(),
            Seq::empty(),
            Seq::empty(),
            Seq::empty(),
            "Meteor Client",
            false,
            1,
        ))
        .push(builtin_entry(
            "ClickCrystals",
            seq!["io/github/itzispyder/clickcrystals"],
            seq!["ClickCrystals.class"],
            Seq::empty(),
            seq![28672u64, 40960u64],
            "ClickCrystals мод",
            false,
            2,
        ))
        .push(builtin_entry(
            "Ezhitboxes",
            seq!["me/bushroot/hb/Modules"],
            seq!["Hitbox.class"],
            Seq::empty(),
            seq![90u64, 100u64, 120u64, 110u64, 130u64, 140u64, 150u64],
            "Ezhitboxes хитбокс",
            false,
            2,
        ))
        .push(builtin_entry(
            "PseudoNeat",
            seq!["me/bushroot/hb/Modules"],
            seq!["Hitbox.class"],
            Seq::empty(),
            seq![100u64, 170u64, 180u64, 190u64, 230u64, 210u64, 270u64, 280u64, 290u64, 330u64, 340u64, 380u64, 370u64, 710u64],
            "PseudoNeat хитбокс",
            false,
            2,
        ))
}

/// No fragment of the list is empty.
pub open spec fn no_empty_fragment(frags: Seq<Seq<char>>) -> bool {
    forall|k: int| 0 <= k < frags.len() ==> (#[trigger] frags[k]).len() > 0
}

/// Every signature of the table asks for at least one signal, every strict one declares
/// a directory or a class, and no fragment is empty.
pub open spec fn table_sound(t: TableModel) -> bool {
    forall|i: int|
        0 <= i < t.len() ==> {
            let m = (#[trigger] t[i]).1;
            &&& m.min_conditions >= 1
            &&& (m.strict_mode ==> m.directories.len() > 0 || m.classes.len() > 0)
            &&& no_empty_fragment(m.directories)
            &&& no_empty_fragment(m.classes)
            &&& no_empty_fragment(m.exclude_dirs)
        }
}

/// The built-in table holds 29 signatures and is sound.
pub proof fn lemma_builtin_table_sound()
    ensures
        builtin_table().len() == 29,
        table_sound(builtin_table()),
{
    reveal_strlit("net/java/");
    reveal_strlit("i.class");
    reveal_strlit("org/apache/");
    reveal_strlit("com/google/");
    reveal_strlit("io/netty/");
    reveal_strlit("net/minecraft/");
    reveal_strlit("net/minecraftforge/");
    reveal_strlit("optifine/");
    reveal_strlit("javax/");
    reveal_strlit("net/xolt/freecam/");
    reveal_strlit("freecam.class");
    reveal_strlit("com/zergatul/freecam");
    reveal_strlit("FreeCam.class");
    reveal_strlit("net/redteadev/nekoclient/");
    reveal_strlit("NekoClient.class");
    reveal_strlit("kaptainwutax/seedcracker/");
    reveal_strlit("SeedCracker.class");
    reveal_strlit("britva/britva/");
    reveal_strlit("me/britva/myst/");
    reveal_strlit("britva.class");
    reveal_strlit("me/pieking1215/invmove/");
    reveal_strlit("me/pieking1215/");
    reveal_strlit("InvMove.class");
    reveal_strlit("wdl/");
    reveal_strlit("WorldBackup.class");
    reveal_strlit("me/lithium/autobuy/");
    reveal_strlit("ru/xorek/nbtautobuy/");
    reveal_strlit("autobuy.class");
    reveal_strlit("buyhelper.class");
    reveal_strlit("net/mcreator/bedrockmod");
    reveal_strlit("net/anawesomguy/breakingbedrock");
    reveal_strlit("BedrockBlock.class");
    reveal_strlit("com/viaversion/fabric/common");
    reveal_strlit("ViaFabric.class");
    reveal_strlit("com/sidezbros/double_hotbar");
    reveal_strlit("DoubleHotbar.class");
    reveal_strlit("net/szum123321/elytra_swap");
    reveal_strlit("com/saolghra/elytraswapper");
    reveal_strlit("io/github/jumperonjava/jjelytraswap");
    reveal_strlit("ElytraSwap.class");
    reveal_strlit("Elytraswapper.class");
    reveal_strlit("ConfigScreen.class");
    reveal_strlit("com/loucaskreger/armorhotswap");
    reveal_strlit("heyblack/betterarmorswap/mixin");
    reveal_strlit("ArmorHotswap.class");
    reveal_strlit("ClientPlayerInteractionManagerMixin.class");
    reveal_strlit("com/github/hexomod/chestlocator");
    reveal_strlit("Z.class");
    reveal_strlit("z.class");
    reveal_strlit("Y.class");
    reveal_strlit("y.class");
    reveal_strlit("topka/product");
    reveal_strlit("nohurtcam/");
    reveal_strlit("ML.class");
    reveal_strlit("com/moandjiezana/toml");
    reveal_strlit("WriterContext.class");
    reveal_strlit("de/greenman999");
    reveal_strlit("LibrarianTrade.class");
    reveal_strlit("com/tfar/autoattack");
    reveal_strlit("vin35/autoattack");
    reveal_strlit("AutoAttack.class");
    reveal_strlit("net/entityoutliner");
    reveal_strlit("EntityOutliner.class");
    reveal_strlit("de/maxhenkel/camerautils");
    reveal_strlit("CameraUtils.class");
    reveal_strlit("com/jahirtrap/walljump");
    reveal_strlit("genandnic/walljump");
    reveal_strlit("WallJump.class");
    reveal_strlit("com/marlowcrystal/marlowcrystal");
    reveal_strlit("MarlowCrystal.class");
    reveal_strlit("CrystalOptimizer.class");
    reveal_strlit("org/ChSP/soupapi");
    reveal_strlit("SoupApi.class");
    reveal_strlit("io/github/itzispyder/clickcrystals");
    reveal_strlit("ClickCrystals.class");
    reveal_strlit("me/bushroot/hb/Modules");
    reveal_strlit("Hitbox.class");
}

/// Tells the built-in identifiers apart: their lengths and first two characters differ.
spec fn fingerprint(s: Seq<char>) -> int {
    s.len() * 0x1_0000_0000_0000 + (s[0] as u32) * 0x20_0000 + (s[1] as u32)
}

/// A list of one item.
fn single<T>(x: T) -> (r: Vec<T>)
    ensures
        r@ == seq![x],
{
    let mut r: Vec<T> = Vec::new();
    r.push(x);
    r
}

/// Owned copies of string slices.
fn owned(items: Vec<&str>) -> (r: Vec<String>)
    ensures
        views_of(r@) == slice_views(items@),
{
    let mut r: Vec<String> = Vec::new();
    let mut i: usize = 0;
    while i < items.len()
        invariant
            i <= items@.len(),
            r@.len() == i,
            forall|j: int| 0 <= j < i ==> #[trigger] r@[j]@ == items@[j]@,
        decreases items@.len() - i,
    {
        r.push(String::from_str(items[i]));
        i = i + 1;
    }
    assert(views_of(r@) =~= slice_views(items@));
    r
}

/// Appends one built-in signature under an identifier whose fingerprint is not yet in
/// `seen`, the fingerprints of the identifiers already present.
fn add_builtin(
    database: &mut CheatDetector,
    name: &str,
    directories: Vec<&str>,
    classes: Vec<&str>,
    exclude_dirs: Vec<&str>,
    sizes_kb_tenths: Vec<u64>,
    description: &str,
    strict_mode: bool,
    min_conditions: usize,
    seen: Ghost<Set<int>>,
)
    requires
        old(database).well_formed(),
        old(database).all_well_formed(),
        min_conditions >= 1,
        forall|i: int|
            0 <= i < old(database)@.len() ==> seen@.contains(
                fingerprint(#[trigger] old(database)@[i].0),
            ),
        !seen@.contains(fingerprint(name@)),
    ensures
        final(database).well_formed(),
        final(database).all_well_formed(),
        detector_model(*final(database)) == detector_model(*old(database)).push(
            builtin_entry(
                name,
                directories@,
                classes@,
                exclude_dirs@,
                sizes_kb_tenths@,
                description,
                strict_mode,
                min_conditions as nat,
            ),
        ),
        forall|i: int|
            0 <= i < final(database)@.len() ==> seen@.insert(fingerprint(name@)).contains(
                fingerprint(#[trigger] final(database)@[i].0),
            ),
{
    let ghost before = database@;
    let info = CheatInfo {
        directories: owned(directories),
        classes: owned(classes),
        exclude_dirs: owned(exclude_dirs),
        sizes_kb_tenths,
        description: String::from_str(description),
        strict_mode,
        min_conditions,
    };
    assert(!has_name(before, name@)) by {
        if has_name(before, name@) {
            let q = choose|q: int| 0 <= q < before.len() && #[trigger] before[q].0 == name@;
            assert(seen@.contains(fingerprint(before[q].0)));
        }
    }
    database.insert(String::from_str(name), info);
    assert(detector_model(*database) =~= detector_model(*old(database)).push(
        builtin_entry(
            name,
            directories@,
            classes@,
            exclude_dirs@,
            sizes_kb_tenths@,
            description,
            strict_mode,
            min_conditions as nat,
        ),
    ));
    assert forall|i: int| 0 <= i < database@.len() implies seen@.insert(fingerprint(name@)).contains(
        fingerprint(#[trigger] database@[i].0),
    ) by {
        if i < before.len() {
            assert(database@[i] == before[i]);
        }
    }
}

impl CheatDetector {
    /// A detector over the built-in signature database.
    pub fn new() -> (r: CheatDetector)
        ensures
            r.well_formed(),
            r.all_well_formed(),
            detector_model(r) == builtin_table(),
            table_sound(detector_model(r)),
            r@.len() == 29,
    {
        let mut database = CheatDetector::empty();
        CheatDetector::init_database(&mut database);
        assert(detector_model(database).len() == database@.len());
        proof {
            lemma_builtin_table_sound();
        }
        database
    }

    /// Adds the built-in signatures, in a fixed order, to an empty database.
    fn init_database(database: &mut CheatDetector)
        requires
            old(database)@.len() == 0,
        ensures
            final(database).well_formed(),
            final(database).all_well_formed(),
            detector_model(*final(database)) == builtin_table(),
            table_sound(detector_model(*final(database))),
    {
        let ghost mut seen: Set<int> = Set::empty();
        assert(detector_model(*database) =~= Seq::<(Seq<char>, InfoModel)>::empty());
        proof {
            reveal_strlit("DoomsDay");
        }
        add_builtin(
            database,
            "DoomsDay",
            single("net/java/"),
            single("i.class"),
            vec!["org/apache/", "com/google/", "io/netty/", "net/minecraft/", "net/minecraftforge/", "optifine/", "javax/"],
            Vec::new(),
            "DoomsDay чит (опасный)",
            true,
            2,
            Ghost(seen),
        );
        proof {
            seen = seen.insert(fingerprint("DoomsDay"@));
        }
        proof {
            reveal_strlit("Freecam");
        }
        add_builtin(
            database,
            "Freecam",
            single("net/xolt/freecam/"),
            single("freecam.class"),
            Vec::new(),
            vec![420, 740, 10470, 10480, 10690, 11040, 11220],
            "Freecam мод",
            false,
            2,
            Ghost(seen),
        );
        proof {
            seen = seen.insert(fingerprint("Freecam"@));
        }
        proof {
            reveal_strlit("Freecam2");
        }
        add_builtin(
            database,
            "Freecam2",
            single("com/zergatul/freecam"),
            single("FreeCam.class"),
            Vec::new(),
            vec![420, 740, 10470, 10480, 10690, 11040, 11220],
            "Freecam мод (вариант 2)",
            false,
            2,
            Ghost(seen),
        );
        proof {
            seen = seen.insert(fingerprint("Freecam2"@));
        }
        proof {
            reveal_strlit("NekoClient");
        }
        add_builtin(
            database,
            "NekoClient",
            single("net/redteadev/nekoclient/"),
            single("NekoClient.class"),
            Vec::new(),
            single(400),
            "NekoClient Ghost",
            false,
            2,
            Ghost(seen),
        );
        proof {
            seen = seen.insert(fingerprint("NekoClient"@));
        }
        proof {
            reveal_strlit("SeedCracker");
        }
        add_builtin(
            database,
            "SeedCracker",
            single("kaptainwutax/seedcracker/"),
            single("SeedCracker.class"),
            Vec::new(),
            single(6070),
            "SeedCracker",
            false,
            2,
            Ghost(seen),
        );
        proof {
            seen = seen.insert(fingerprint("SeedCracker"@));
        }
        proof {
            reveal_strlit("Britva");
        }
        add_builtin(
            database,
            "Britva",
            vec!["britva/britva/", "me/britva/myst/"],
            single("britva.class"),
            Vec::new(),
            vec![12070, 7820, 240, 45030],
            "Britva Ghost/AutoMyst",
            false,
            2,
            Ghost(seen),
        );
        proof {
            seen = seen.insert(fingerprint("Britva"@));
        }
        proof {
            reveal_strlit("Inventory Move");
        }
        add_builtin(
            database,
            "Inventory Move",
            vec!["me/pieking1215/invmove/", "me/pieking1215/"],
            single("InvMove.class"),
            Vec::new(),
            single(3310),
            "Inventory Move",
            false,
            2,
            Ghost(seen),
        );
        proof {
            seen = seen.insert(fingerprint("Inventory Move"@));
        }
        proof {
            reveal_strlit("WorldDownloader");
        }
        add_builtin(
            database,
            "WorldDownloader",
            single("wdl/"),
            single("WorldBackup.class"),
            Vec::new(),
            single(5740),
            "WorldDownloader",
            false,
            2,
            Ghost(seen),
        );
        proof {
            seen = seen.insert(fingerprint("WorldDownloader"@));
        }
        proof {
            reveal_strlit("AutoBuy");
        }
        add_builtin(
            database,
            "AutoBuy",
            vec!["me/lithium/autobuy/", "ru/xorek/nbtautobuy/"],
            vec!["autobuy.class", "buyhelper.class"],
            Vec::new(),
            vec![1430, 3010, 3980, 73100],
            "AutoBuy читы",
            false,
            2,
            Ghost(seen),
        );
        proof {
            seen = seen.insert(fingerprint("AutoBuy"@));
        }
        proof {
            reveal_strlit("BedrockBricker");
        }
        add_builtin(
            database,
            "BedrockBricker",
            vec!["net/mcreator/bedrockmod", "net/anawesomguy/breakingbedrock"],
            single("BedrockBlock.class"),
            Vec::new(),
            single(418),
            "Bedrock Bricker мод",
            false,
            2,
            Ghost(seen),
        );
        proof {
            seen = seen.insert(fingerprint("BedrockBricker"@));
        }
        proof {
            reveal_strlit("ViaVersion");
        }
        add_builtin(
            database,
            "ViaVersion",
            single("com/viaversion/fabric/common"),
            single("ViaFabric.class"),
            Vec::new(),
            single(50310),
            "ViaVersion мод",
            false,
            2,
            Ghost(seen),
        );
        proof {
            seen = seen.insert(fingerprint("ViaVersion"@));
        }
        proof {
            reveal_strlit("DoubleHotbar");
        }
        add_builtin(
            database,
            "DoubleHotbar",
            single("com/sidezbros/double_hotbar"),
            single("DoubleHotbar.class"),
            Vec::new(),
            vec![290, 350, 360, 370, 420, 430],
            "Double Hotbar мод",
            false,
            2,
            Ghost(seen),
        );
        proof {
            seen = seen.insert(fingerprint("DoubleHotbar"@));
        }
        proof {
            reveal_strlit("ElytraSwap");
        }
        add_builtin(
            database,
            "ElytraSwap",
            vec!["net/szum123321/elytra_swap", "com/saolghra/elytraswapper", "io/github/jumperonjava/jjelytraswap"],
            vec!["ElytraSwap.class", "Elytraswapper.class", "ConfigScreen.class"],
            Vec::new(),
            single(5680),
            "Elytra Swap мод",
            false,
            2,
            Ghost(seen),
        );
        proof {
            seen = seen.insert(fingerprint("ElytraSwap"@));
        }
        proof {
            reveal_strlit("ArmorHotswap");
        }
        add_builtin(
            database,
            "ArmorHotswap",
            vec!["com/loucaskreger/armorhotswap", "heyblack/betterarmorswap/mixin"],
            vec!["ArmorHotswap.class", "ClientPlayerInteractionManagerMixin.class"],
            Vec::new(),
            vec![190, 200, 210, 280, 290],
            "Armor Hotswap мод",
            false,
            2,
            Ghost(seen),
        );
        proof {
            seen = seen.insert(fingerprint("ArmorHotswap"@));
        }
        proof {
            reveal_strlit("ChestLocator");
        }
        add_builtin(
            database,
            "ChestLocator",
            single("com/github/hexomod/chestlocator"),
            vec!["Z.class", "z.class", "Y.class", "y.class"],
            Vec::new(),
            single(8700),
            "Chest Locator мод",
            false,
            2,
            Ghost(seen),
        );
        proof {
            seen = seen.insert(fingerprint("ChestLocator"@));
        }
        proof {
            reveal_strlit("TopkaAutoBuyV1");
        }
        add_builtin(
            database,
            "TopkaAutoBuyV1",
            single("topka/product"),
            Vec::new(),
            Vec::new(),
            single(480),
            "Topka AutoBuy v1 (бан за хранение)",
            false,
            2,
            Ghost(seen),
        );
        proof {
            seen = seen.insert(fingerprint("TopkaAutoBuyV1"@));
        }
        proof {
            reveal_strlit("NoHurtCam DanilSimX.jar");
        }
        add_builtin(
            database,
            "NoHurtCam DanilSimX.jar",
            single("nohurtcam/"),
            single("ML.class"),
            Vec::new(),
            single(950),
            "NoHurtCam DanilSimX.jar хитбоксы",
            false,
            1,
            Ghost(seen),
        );
        proof {
            seen = seen.insert(fingerprint("NoHurtCam DanilSimX.jar"@));
        }
        proof {
            reveal_strlit("GUMBALLOFFMODE");
        }
        add_builtin(
            database,
            "GUMBALLOFFMODE",
            single("com/moandjiezana/toml"),
            single("WriterContext.class"),
            vec!["org/apache/", "com/google/", "io/netty/", "net/minecraft/", "net/minecraftforge/", "optifine/", "javax/"],
            single(27010),
            "GUMBALLOFFMODE мод",
            true,
            2,
            Ghost(seen),
        );
        proof {
            seen = seen.insert(fingerprint("GUMBALLOFFMODE"@));
        }
        proof {
            reveal_strlit("LibrarianTradeFinder");
        }
        add_builtin(
            database,
            "LibrarianTradeFinder",
            single("de/greenman999"),
            single("LibrarianTrade.class"),
            Vec::new(),
            vec![940, 1000, 1010, 32030],
            "Librarian Trade Finder мод",
            false,
            2,
            Ghost(seen),
        );
        proof {
            seen = seen.insert(fingerprint("LibrarianTradeFinder"@));
        }
        proof {
            reveal_strlit("AutoAttack");
        }
        add_builtin(
            database,
            "AutoAttack",
            vec!["com/tfar/autoattack", "vin35/autoattack"],
            single("AutoAttack.class"),
            Vec::new(),
            vec![40, 770],
            "Auto Attack мод",
            false,
            2,
            Ghost(seen),
        );
        proof {
            seen = seen.insert(fingerprint("AutoAttack"@));
        }
        proof {
            reveal_strlit("EntityOutliner");
        }
        add_builtin(
            database,
            "EntityOutliner",
            single("net/entityoutliner"),
            single("EntityOutliner.class"),
            Vec::new(),
            vec![320, 330, 390, 410],
            "Entity Outliner мод",
            false,
            2,
            Ghost(seen),
        );
        proof {
            seen = seen.insert(fingerprint("EntityOutliner"@));
        }
        proof {
            reveal_strlit("CameraUtils");
        }
        add_builtin(
            database,
            "CameraUtils",
            single("de/maxhenkel/camerautils"),
            single("CameraUtils.class"),
            Vec::new(),
            vec![880, 2960, 3170, 3440, 3480],
            "Camera Utils мод",
            false,
            2,
            Ghost(seen),
        );
        proof {
            seen = seen.insert(fingerprint("CameraUtils"@));
        }
        proof {
            reveal_strlit("WallJumpTXF");
        }
        add_builtin(
            database,
            "WallJumpTXF",
            vec!["com/jahirtrap/walljump", "genandnic/walljump"],
            single("WallJump.class"),
            Vec::new(),
            vec![1550, 1590, 1600, 1610, 1620, 1630, 1650],
            "Wall-Jump TXF мод",
            false,
            2,
            Ghost(seen),
        );
        proof {
            seen = seen.insert(fingerprint("WallJumpTXF"@));
        }
        proof {
            reveal_strlit("CrystalOptimizer");
        }
        add_builtin(
            database,
            "CrystalOptimizer",
            single("com/marlowcrystal/marlowcrystal"),
            vec!["MarlowCrystal.class", "CrystalOptimizer.class"],
            Vec::new(),
            vec![900, 970],
            "Crystal Optimizer мод",
            false,
            2,
            Ghost(seen),
        );
        proof {
            seen = seen.insert(fingerprint("CrystalOptimizer"@));
        }
        proof {
            reveal_strlit("SoupAPI");
        }
        add_builtin(
            database,
            "SoupAPI",
            single("org/ChSP/soupapi"),
            single("SoupApi.class"),
            Vec::new(),
            single(9420),
            "Soup API (бан за хранение)",
            false,
            2,
            Ghost(seen),
        );
        proof {
            seen = seen.insert(fingerprint("SoupAPI"@));
        }
        proof {
            reveal_strlit("MeteorClient");
        }
        add_builtin(
            database,
            "MeteorClient",
            Vec::new(),
            Vec::new(),
            Vec::new(),
            Vec::new(),
            "Meteor Client",
            false,
            1,
            Ghost(seen),
        );
        proof {
            seen = seen.insert(fingerprint("MeteorClient"@));
        }
        proof {
            reveal_strlit("ClickCrystals");
        }
        add_builtin(
            database,
            "ClickCrystals",
            single("io/github/itzispyder/clickcrystals"),
            single("ClickCrystals.class"),
            Vec::new(),
            vec![28672, 40960],
            "ClickCrystals мод",
            false,
            2,
            Ghost(seen),
        );
        proof {
            seen = seen.insert(fingerprint("ClickCrystals"@));
        }
        proof {
            reveal_strlit("Ezhitboxes");
        }
        add_builtin(
            database,
            "Ezhitboxes",
            single("me/bushroot/hb/Modules"),
            single("Hitbox.class"),
            Vec::new(),
            vec![90, 100, 120, 110, 130, 140, 150],
            "Ezhitboxes хитбокс",
            false,
            2,
            Ghost(seen),
        );
        proof {
            seen = seen.insert(fingerprint("Ezhitboxes"@));
        }
        proof {
            reveal_strlit("PseudoNeat");
        }
        add_builtin(
            database,
            "PseudoNeat",
            single("me/bushroot/hb/Modules"),
            single("Hitbox.class"),
            Vec::new(),
            vec![100, 170, 180, 190, 230, 210, 270, 280, 290, 330, 340, 380, 370, 710],
            "PseudoNeat хитбокс",
            false,
            2,
            Ghost(seen),
        );
        proof {
            seen = seen.insert(fingerprint("PseudoNeat"@));
            lemma_builtin_table_sound();
        }
    }
}

} // verus!
