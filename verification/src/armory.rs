//! The stock suits of armour, named by the files that describe their
//! pieces, and the kinds of projectile.
use vstd::prelude::*;

use vstd::string::StringExecFns;

use crate::weapons::{Projectile, ProjectileHead, ProjectileShaft};

verus! {

/// A stock suit of armour.
#[derive(Debug, PartialEq, Eq, Structural, Clone, Copy)]
pub enum Suit {
    Clothing,
    HeavyClothing,
    QuiltedCoat,
    KurbulCuirass,
    ScaleByrnie,
    MailByrnie,
    Gambeson,
    ScaleHabergeon,
    MailHabergeon,
    MailHauberk,
    KurbulMail,
    PlateMail,
}

impl Suit {
    /// The files that describe the pieces of the suit.
    pub open spec fn spec_files(self) -> Seq<Seq<char>> {
        match self {
            Suit::Clothing => seq![
                "items/armor/cloth_vest.toml"@,
                "items/armor/cloth_tunic.toml"@,
                "items/armor/cloth_breeches.toml"@,
                "items/armor/cloth_swaddle.toml"@,
            ],
            Suit::HeavyClothing => seq![
                "items/armor/leather_cap.toml"@,
                "items/armor/padded_shirt.toml"@,
                "items/armor/cloth_tunic_sleeved.toml"@,
                "items/armor/cloth_surcoat.toml"@,
                "items/armor/cloth_breeches.toml"@,
                "items/armor/cloth_swaddle.toml"@,
                "items/armor/leather_shoes.toml"@,
            ],
            Suit::QuiltedCoat => seq![
                "items/armor/kurbul_helm.toml"@,
                "items/armor/padded_cap.toml"@,
                "items/armor/quilted_coat.toml"@,
                "items/armor/cloth_tunic.toml"@,
                "items/armor/cloth_breeches.toml"@,
                "items/armor/cloth_leggings.toml"@,
                "items/armor/leather_shoes.toml"@,
            ],
            Suit::KurbulCuirass => seq![
                "items/armor/plate_helm.toml"@,
                "items/armor/padded_cap.toml"@,
                "items/armor/kurbul_spaulders.toml"@,
                "items/armor/kurbul_rerebraces.toml"@,
                "items/armor/kurbul_cuirass.toml"@,
                "items/armor/padded_tunic_sleeved.toml"@,
                "items/armor/cloth_trousers.toml"@,
                "items/armor/cloth_swaddle.toml"@,
                "items/armor/leather_boots.toml"@,
            ],
            Suit::ScaleByrnie => seq![
                "items/armor/plate_helm.toml"@,
                "items/armor/padded_cap.toml"@,
                "items/armor/scale_byrnie.toml"@,
                "items/armor/padded_coat.toml"@,
                "items/armor/cloth_trousers.toml"@,
                "items/armor/cloth_swaddle.toml"@,
                "items/armor/leather_boots.toml"@,
            ],
            Suit::MailByrnie => seq![
                "items/armor/plate_helm.toml"@,
                "items/armor/padded_cap.toml"@,
                "items/armor/mail_byrnie.toml"@,
                "items/armor/padded_tunic.toml"@,
                "items/armor/cloth_trousers.toml"@,
                "items/armor/cloth_swaddle.toml"@,
                "items/armor/leather_boots.toml"@,
            ],
            Suit::Gambeson => seq![
                "items/armor/plate_helm.toml"@,
                "items/armor/padded_cap.toml"@,
                "items/armor/gambeson_coat.toml"@,
                "items/armor/cloth_vest.toml"@,
                "items/armor/kurbul_kneecops.toml"@,
                "items/armor/padded_cuisses.toml"@,
                "items/armor/cloth_breeches.toml"@,
                "items/armor/cloth_swaddle.toml"@,
                "items/armor/leather_boots.toml"@,
            ],
            Suit::ScaleHabergeon => seq![
                "items/armor/plate_34_helm.toml"@,
                "items/armor/padded_cap.toml"@,
                "items/armor/kurbul_spaulders.toml"@,
                "items/armor/kurbul_coudes.toml"@,
                "items/armor/leather_gauntlets.toml"@,
                "items/armor/scale_habergeon.toml"@,
                "items/armor/padded_coat.toml"@,
                "items/armor/cloth_breeches.toml"@,
                "items/armor/kurbul_kneecops.toml"@,
                "items/armor/padded_leggings.toml"@,
                "items/armor/leather_boots.toml"@,
            ],
            Suit::MailHabergeon => seq![
                "items/armor/plate_helm.toml"@,
                "items/armor/padded_cap.toml"@,
                "items/armor/mail_habergeon.toml"@,
                "items/armor/padded_coat.toml"@,
                "items/armor/cloth_breeches.toml"@,
                "items/armor/kurbul_kneecops.toml"@,
                "items/armor/padded_leggings.toml"@,
                "items/armor/leather_boots.toml"@,
            ],
            Suit::MailHauberk => seq![
                "items/armor/mail_cowl.toml"@,
                "items/armor/padded_cowl.toml"@,
                "items/armor/plate_coudes.toml"@,
                "items/armor/mail_mittens.toml"@,
                "items/armor/padded_mittens.toml"@,
                "items/armor/mail_hauberk.toml"@,
                "items/armor/padded_coat.toml"@,
                "items/armor/cloth_breeches.toml"@,
                "items/armor/plate_kneecops.toml"@,
                "items/armor/mail_leggings.toml"@,
                "items/armor/padded_leggings.toml"@,
            ],
            Suit::KurbulMail => seq![
                "items/armor/plate_34_helm.toml"@,
                "items/armor/mail_cowl.toml"@,
                "items/armor/padded_cowl.toml"@,
                "items/armor/kurbul_spaulders.toml"@,
                "items/armor/kurbul_rerebraces.toml"@,
                "items/armor/kurbul_coudes.toml"@,
                "items/armor/mail_mittens.toml"@,
                "items/armor/padded_mittens.toml"@,
                "items/armor/kurbul_cuirass.toml"@,
                "items/armor/mail_hauberk.toml"@,
                "items/armor/padded_coat.toml"@,
                "items/armor/cloth_breeches.toml"@,
                "items/armor/kurbul_kneecops.toml"@,
                "items/armor/plate_greaves.toml"@,
                "items/armor/mail_leggings.toml"@,
                "items/armor/padded_leggings.toml"@,
            ],
            Suit::PlateMail => seq![
                "items/armor/plate_great_helm.toml"@,
                "items/armor/mail_cowl.toml"@,
                "items/armor/padded_cowl.toml"@,
                "items/armor/plate_spaulders.toml"@,
                "items/armor/plate_rerebraces.toml"@,
                "items/armor/plate_coudes.toml"@,
                "items/armor/plate_vambraces.toml"@,
                "items/armor/mail_mittens.toml"@,
                "items/armor/padded_mittens.toml"@,
                "items/armor/plate_cuirass.toml"@,
                "items/armor/mail_hauberk.toml"@,
                "items/armor/padded_coat.toml"@,
                "items/armor/cloth_breeches.toml"@,
                "items/armor/plate_kneecops.toml"@,
                "items/armor/plate_greaves.toml"@,
                "items/armor/mail_leggings.toml"@,
                "items/armor/padded_leggings.toml"@,
            ],
        }
    }

    /// The files that describe the pieces of the suit.
    pub fn files(&self) -> (f: Vec<String>)
        ensures
            f@.map_values(|s: String| s@) == self.spec_files(),
    {
        let f = match self {
            Suit::Clothing => vec![
                "items/armor/cloth_vest.toml".to_owned(),
                "items/armor/cloth_tunic.toml".to_owned(),
                "items/armor/cloth_breeches.toml".to_owned(),
                "items/armor/cloth_swaddle.toml".to_owned(),
            ],
            Suit::HeavyClothing => vec![
                "items/armor/leather_cap.toml".to_owned(),
                "items/armor/padded_shirt.toml".to_owned(),
                "items/armor/cloth_tunic_sleeved.toml".to_owned(),
                "items/armor/cloth_surcoat.toml".to_owned(),
                "items/armor/cloth_breeches.toml".to_owned(),
                "items/armor/cloth_swaddle.toml".to_owned(),
                "items/armor/leather_shoes.toml".to_owned(),
            ],
            Suit::QuiltedCoat => vec![
                "items/armor/kurbul_helm.toml".to_owned(),
                "items/armor/padded_cap.toml".to_owned(),
                "items/armor/quilted_coat.toml".to_owned(),
                "items/armor/cloth_tunic.toml".to_owned(),
                "items/armor/cloth_breeches.toml".to_owned(),
                "items/armor/cloth_leggings.toml".to_owned(),
                "items/armor/leather_shoes.toml".to_owned(),
            ],
            Suit::KurbulCuirass => vec![
                "items/armor/plate_helm.toml".to_owned(),
                "items/armor/padded_cap.toml".to_owned(),
                "items/armor/kurbul_spaulders.toml".to_owned(),
                "items/armor/kurbul_rerebraces.toml".to_owned(),
                "items/armor/kurbul_cuirass.toml".to_owned(),
                "items/armor/padded_tunic_sleeved.toml".to_owned(),
                "items/armor/cloth_trousers.toml".to_owned(),
                "items/armor/cloth_swaddle.toml".to_owned(),
                "items/armor/leather_boots.toml".to_owned(),
            ],
            Suit::ScaleByrnie => vec![
                "items/armor/plate_helm.toml".to_owned(),
                "items/armor/padded_cap.toml".to_owned(),
                "items/armor/scale_byrnie.toml".to_owned(),
                "items/armor/padded_coat.toml".to_owned(),
                "items/armor/cloth_trousers.toml".to_owned(),
                "items/armor/cloth_swaddle.toml".to_owned(),
                "items/armor/leather_boots.toml".to_owned(),
            ],
            Suit::MailByrnie => vec![
                "items/armor/plate_helm.toml".to_owned(),
                "items/armor/padded_cap.toml".to_owned(),
                "items/armor/mail_byrnie.toml".to_owned(),
                "items/armor/padded_tunic.toml".to_owned(),
                "items/armor/cloth_trousers.toml".to_owned(),
                "items/armor/cloth_swaddle.toml".to_owned(),
                "items/armor/leather_boots.toml".to_owned(),
            ],
            Suit::Gambeson => vec![
                "items/armor/plate_helm.toml".to_owned(),
                "items/armor/padded_cap.toml".to_owned(),
                "items/armor/gambeson_coat.toml".to_owned(),
                "items/armor/cloth_vest.toml".to_owned(),
                "items/armor/kurbul_kneecops.toml".to_owned(),
                "items/armor/padded_cuisses.toml".to_owned(),
                "items/armor/cloth_breeches.toml".to_owned(),
                "items/armor/cloth_swaddle.toml".to_owned(),
                "items/armor/leather_boots.toml".to_owned(),
            ],
            Suit::ScaleHabergeon => vec![
                "items/armor/plate_34_helm.toml".to_owned(),
                "items/armor/padded_cap.toml".to_owned(),
                "items/armor/kurbul_spaulders.toml".to_owned(),
                "items/armor/kurbul_coudes.toml".to_owned(),
                "items/armor/leather_gauntlets.toml".to_owned(),
                "items/armor/scale_habergeon.toml".to_owned(),
                "items/armor/padded_coat.toml".to_owned(),
                "items/armor/cloth_breeches.toml".to_owned(),
                "items/armor/kurbul_kneecops.toml".to_owned(),
                "items/armor/padded_leggings.toml".to_owned(),
                "items/armor/leather_boots.toml".to_owned(),
            ],
            Suit::MailHabergeon => vec![
                "items/armor/plate_helm.toml".to_owned(),
                "items/armor/padded_cap.toml".to_owned(),
                "items/armor/mail_habergeon.toml".to_owned(),
                "items/armor/padded_coat.toml".to_owned(),
                "items/armor/cloth_breeches.toml".to_owned(),
                "items/armor/kurbul_kneecops.toml".to_owned(),
                "items/armor/padded_leggings.toml".to_owned(),
                "items/armor/leather_boots.toml".to_owned(),
            ],
            Suit::MailHauberk => vec![
                "items/armor/mail_cowl.toml".to_owned(),
                "items/armor/padded_cowl.toml".to_owned(),
                "items/armor/plate_coudes.toml".to_owned(),
                "items/armor/mail_mittens.toml".to_owned(),
                "items/armor/padded_mittens.toml".to_owned(),
                "items/armor/mail_hauberk.toml".to_owned(),
                "items/armor/padded_coat.toml".to_owned(),
                "items/armor/cloth_breeches.toml".to_owned(),
                "items/armor/plate_kneecops.toml".to_owned(),
                "items/armor/mail_leggings.toml".to_owned(),
                "items/armor/padded_leggings.toml".to_owned(),
            ],
            Suit::KurbulMail => vec![
                "items/armor/plate_34_helm.toml".to_owned(),
                "items/armor/mail_cowl.toml".to_owned(),
                "items/armor/padded_cowl.toml".to_owned(),
                "items/armor/kurbul_spaulders.toml".to_owned(),
                "items/armor/kurbul_rerebraces.toml".to_owned(),
                "items/armor/kurbul_coudes.toml".to_owned(),
                "items/armor/mail_mittens.toml".to_owned(),
                "items/armor/padded_mittens.toml".to_owned(),
                "items/armor/kurbul_cuirass.toml".to_owned(),
                "items/armor/mail_hauberk.toml".to_owned(),
                "items/armor/padded_coat.toml".to_owned(),
                "items/armor/cloth_breeches.toml".to_owned(),
                "items/armor/kurbul_kneecops.toml".to_owned(),
                "items/armor/plate_greaves.toml".to_owned(),
                "items/armor/mail_leggings.toml".to_owned(),
                "items/armor/padded_leggings.toml".to_owned(),
            ],
            Suit::PlateMail => vec![
                "items/armor/plate_great_helm.toml".to_owned(),
                "items/armor/mail_cowl.toml".to_owned(),
                "items/armor/padded_cowl.toml".to_owned(),
                "items/armor/plate_spaulders.toml".to_owned(),
                "items/armor/plate_rerebraces.toml".to_owned(),
                "items/armor/plate_coudes.toml".to_owned(),
                "items/armor/plate_vambraces.toml".to_owned(),
                "items/armor/mail_mittens.toml".to_owned(),
                "items/armor/padded_mittens.toml".to_owned(),
                "items/armor/plate_cuirass.toml".to_owned(),
                "items/armor/mail_hauberk.toml".to_owned(),
                "items/armor/padded_coat.toml".to_owned(),
                "items/armor/cloth_breeches.toml".to_owned(),
                "items/armor/plate_kneecops.toml".to_owned(),
                "items/armor/plate_greaves.toml".to_owned(),
                "items/armor/mail_leggings.toml".to_owned(),
                "items/armor/padded_leggings.toml".to_owned(),
            ],
        };
        assert(f@.map_values(|s: String| s@) =~= self.spec_files());
        f
    }
}

impl ProjectileShaft {
    pub open spec fn spec_label(self) -> Seq<char> {
        match self {
            ProjectileShaft::Heavy => "Heavy"@,
            ProjectileShaft::Light => "Light"@,
        }
    }
}

impl ProjectileHead {
    pub open spec fn spec_label(self) -> Seq<char> {
        match self {
            ProjectileHead::Bodkin => "Bodkin"@,
            ProjectileHead::Blunt => "Blunt"@,
            ProjectileHead::Broad => "Broad"@,
        }
    }
}

/// The name of a projectile kind: its shaft, a space, and its head.
pub open spec fn projectile_label(p: Projectile) -> Seq<char> {
    p.shaft.spec_label() + " "@ + p.head.spec_label()
}

/// Every projectile kind, heads in turn and each with both shafts.
pub open spec fn projectile_kinds() -> Seq<Projectile> {
    seq![
        Projectile { shaft: ProjectileShaft::Heavy, head: ProjectileHead::Bodkin },
        Projectile { shaft: ProjectileShaft::Light, head: ProjectileHead::Bodkin },
        Projectile { shaft: ProjectileShaft::Heavy, head: ProjectileHead::Blunt },
        Projectile { shaft: ProjectileShaft::Light, head: ProjectileHead::Blunt },
        Projectile { shaft: ProjectileShaft::Heavy, head: ProjectileHead::Broad },
        Projectile { shaft: ProjectileShaft::Light, head: ProjectileHead::Broad },
    ]
}

/// The name of a projectile kind.
fn label(p: Projectile) -> (s: String)
    ensures
        s@ == projectile_label(p),
{
    let shaft = match p.shaft {
        ProjectileShaft::Heavy => "Heavy",
        ProjectileShaft::Light => "Light",
    };
    let head = match p.head {
        ProjectileHead::Bodkin => "Bodkin",
        ProjectileHead::Blunt => "Blunt",
        ProjectileHead::Broad => "Broad",
    };
    let mut s = shaft.to_owned();
    s.append(" ");
    s.append(head);
    s
}

/// Every projectile kind under its name.
pub fn projectiles() -> (v: Vec<(String, Projectile)>)
    ensures
        v@.map_values(|e: (String, Projectile)| e.1) == projectile_kinds(),
        forall|i: int| 0 <= i < v@.len() ==> (#[trigger] v@[i]).0@ == projectile_label(v@[i].1),
{
    let heads = [ProjectileHead::Bodkin, ProjectileHead::Blunt, ProjectileHead::Broad];
    let shafts = [ProjectileShaft::Heavy, ProjectileShaft::Light];
    let mut v: Vec<(String, Projectile)> = Vec::new();
    let mut h: usize = 0;
    while h < 3
        invariant
            h <= 3,
            heads@ == seq![ProjectileHead::Bodkin, ProjectileHead::Blunt, ProjectileHead::Broad],
            shafts@ == seq![ProjectileShaft::Heavy, ProjectileShaft::Light],
            v@.map_values(|e: (String, Projectile)| e.1) == projectile_kinds().take(2 * h),
            forall|i: int| 0 <= i < v@.len() ==> (#[trigger] v@[i]).0@ == projectile_label(v@[i].1),
        decreases 3 - h,
    {
        let mut s: usize = 0;
        while s < 2
            invariant
                h < 3,
                s <= 2,
                heads@ == seq![ProjectileHead::Bodkin, ProjectileHead::Blunt, ProjectileHead::Broad],
                shafts@ == seq![ProjectileShaft::Heavy, ProjectileShaft::Light],
                v@.map_values(|e: (String, Projectile)| e.1) == projectile_kinds().take(2 * h + s),
                forall|i: int|
                    0 <= i < v@.len() ==> (#[trigger] v@[i]).0@ == projectile_label(v@[i].1),
            decreases 2 - s,
        {
            let p = Projectile { shaft: shafts[s], head: heads[h] };
            let name = label(p);
            let ghost before = v@;
            v.push((name, p));
            proof {
                assert(p == projectile_kinds()[2 * h + s]);
                assert(v@.map_values(|e: (String, Projectile)| e.1) =~= before.map_values(
                    |e: (String, Projectile)| e.1,
                ).push(p));
                assert(projectile_kinds().take(2 * h + s + 1) =~= projectile_kinds().take(
                    2 * h + s,
                ).push(p));
            }
            s = s + 1;
        }
        h = h + 1;
    }
    assert(projectile_kinds().take(6) =~= projectile_kinds());
    v
}

/// Two different projectile kinds never share a name, so each name finds
/// its kind again.
pub proof fn projectile_labels_are_distinct(a: Projectile, b: Projectile)
    requires
        a != b,
    ensures
        projectile_label(a) != projectile_label(b),
{
    reveal_strlit("Heavy");
    reveal_strlit("Light");
    reveal_strlit(" ");
    reveal_strlit("Bodkin");
    reveal_strlit("Blunt");
    reveal_strlit("Broad");
    if a.shaft != b.shaft {
        assert(projectile_label(a)[0] != projectile_label(b)[0]);
    } else {
        assert(projectile_label(a)[7] != projectile_label(b)[7]);
    }
}

} // verus!
