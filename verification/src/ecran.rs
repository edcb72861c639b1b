//! Écran de diagnostic : navigation entre les pages au bouton, mise en veille, et
//! textes formatés. Le dessin sur l'écran est fait par l'appelant.
use crate::pompe::ecart;
use vstd::prelude::*;

verus! {

/// Nombre de pages : capteurs, Wi-Fi, pompe, sécurités, bilan du jour.
pub const NB_PAGES: u8 = 5;
/// Retour automatique à la page 0 après 30 s sur une autre page.
pub const RETOUR_AUTO_APRES_MS: u64 = 30_000;
/// Un appui maintenu au moins 0,8 s ramène à la page 0.
pub const APPUI_LONG_MS: u64 = 800;
/// Mise en veille après 5 min sans activité.
pub const VEILLE_APRES_MS: u64 = 300_000;

/// Chiffre ASCII `0`.
pub const ZERO: u8 = 48;

/// Écriture décimale de `n`, sans zéro de tête.
pub open spec fn decimal(n: nat) -> Seq<u8>
    decreases n,
{
    if n < 10 {
        seq![(ZERO + n) as u8]
    } else {
        decimal(n / 10).push((ZERO + n % 10) as u8)
    }
}

/// Écriture décimale sur au moins deux chiffres (format `{:02}`).
pub open spec fn decimal_2(n: nat) -> Seq<u8> {
    if n < 10 { seq![ZERO, (ZERO + n) as u8] } else { decimal(n) }
}

/// Écrit `n` en décimal à la suite de `texte`.
pub fn ecrire_decimal(texte: &mut Vec<u8>, n: u64)
    ensures
        final(texte)@ == old(texte)@ + decimal(n as nat),
    decreases n,
{
    if n >= 10 {
        ecrire_decimal(texte, n / 10);
    }
    texte.push(ZERO + (n % 10) as u8);
    assert(final(texte)@ =~= old(texte)@ + decimal(n as nat));
}

/// Écrit `n` sur au moins deux chiffres à la suite de `texte`.
pub fn ecrire_decimal_2(texte: &mut Vec<u8>, n: u64)
    ensures
        final(texte)@ == old(texte)@ + decimal_2(n as nat),
{
    if n < 10 {
        texte.push(ZERO);
        texte.push(ZERO + n as u8);
        assert(final(texte)@ =~= old(texte)@ + decimal_2(n as nat));
    } else {
        ecrire_decimal(texte, n);
    }
}

/// Place des textes courts : `XhYY` tient en 8 octets, une durée en 16.
pub const PLACE_HM: usize = 8;
pub const PLACE_DUREE: usize = 16;

/// Texte écrit morceau par morceau à la suite de `acc` dans une zone de `place`
/// octets : chaque morceau entre en entier ou pas du tout, et l'écriture s'arrête au
/// premier morceau qui n'entre pas.
pub open spec fn ecrit_dans(acc: Seq<u8>, morceaux: Seq<Seq<u8>>, place: nat) -> Seq<u8>
    decreases morceaux.len(),
{
    if morceaux.len() == 0 {
        acc
    } else if acc.len() + morceaux[0].len() <= place {
        ecrit_dans(acc + morceaux[0], morceaux.drop_first(), place)
    } else {
        acc
    }
}

/// Morceaux de l'écriture de `n` sur au moins deux chiffres : un `0` puis le chiffre
/// sous 10, sinon le nombre entier.
pub open spec fn morceaux_2(n: nat) -> Seq<Seq<u8>> {
    if n < 10 { seq![seq![ZERO], decimal(n)] } else { seq![decimal(n)] }
}

/// Morceaux du texte `XhYY` d'un nombre de minutes (ex. 135 -> `2`, `h`, `15`).
pub open spec fn morceaux_hm(total_min: u32) -> Seq<Seq<u8>> {
    seq![decimal((total_min / 60) as nat), seq![104u8]] + morceaux_2((total_min % 60) as nat)
}

/// Texte `XhYY` d'un nombre de minutes, limité à `PLACE_HM` octets.
pub open spec fn texte_hm(total_min: u32) -> Seq<u8> {
    ecrit_dans(Seq::<u8>::empty(), morceaux_hm(total_min), PLACE_HM as nat)
}

/// Morceaux du texte d'une durée en secondes : `XjYhZm` au-delà d'un jour, `XhYYm`
/// sinon.
pub open spec fn morceaux_duree(secondes: u64) -> Seq<Seq<u8>> {
    let jours = secondes / 86400;
    let heures = (secondes % 86400) / 3600;
    let minutes = (secondes % 3600) / 60;
    if jours > 0 {
        seq![decimal(jours as nat), seq![106u8], decimal(heures as nat), seq![104u8], decimal(minutes as nat), seq![109u8]]
    } else {
        seq![decimal(heures as nat), seq![104u8]] + morceaux_2(minutes as nat) + seq![seq![109u8]]
    }
}

/// Texte d'une durée en secondes, limité à `PLACE_DUREE` octets.
pub open spec fn texte_duree(secondes: u64) -> Seq<u8> {
    ecrit_dans(Seq::<u8>::empty(), morceaux_duree(secondes), PLACE_DUREE as nat)
}

/// Écrit `n` en décimal dans un nouveau texte.
fn decimal_seul(n: u64) -> (t: Vec<u8>)
    ensures
        t@ == decimal(n as nat),
{
    let mut t: Vec<u8> = Vec::new();
    ecrire_decimal(&mut t, n);
    assert(t@ =~= decimal(n as nat));
    t
}

/// Un texte d'un seul octet.
fn octet_seul(b: u8) -> (t: Vec<u8>)
    ensures
        t@ == seq![b],
{
    let mut t: Vec<u8> = Vec::new();
    t.push(b);
    assert(t@ =~= seq![b]);
    t
}

/// Ajoute les morceaux de l'écriture de `n` sur au moins deux chiffres.
fn pousser_morceaux_2(m: &mut Vec<Vec<u8>>, n: u64)
    ensures
        final(m)@.map_values(|v: Vec<u8>| v@) == old(m)@.map_values(|v: Vec<u8>| v@) + morceaux_2(n as nat),
{
    if n < 10 {
        m.push(octet_seul(ZERO));
    }
    m.push(decimal_seul(n));
    assert(final(m)@.map_values(|v: Vec<u8>| v@) =~= old(m)@.map_values(|v: Vec<u8>| v@) + morceaux_2(n as nat));
}

/// Écrit les morceaux dans une zone de `place` octets (voir `ecrit_dans`).
fn ecrire_dans(morceaux: &Vec<Vec<u8>>, place: usize) -> (t: Vec<u8>)
    ensures
        t@ == ecrit_dans(Seq::<u8>::empty(), morceaux@.map_values(|v: Vec<u8>| v@), place as nat),
{
    let ghost vue = morceaux@.map_values(|v: Vec<u8>| v@);
    let mut t: Vec<u8> = Vec::new();
    let mut i: usize = 0;
    assert(vue.skip(0) =~= vue);
    while i < morceaux.len()
        invariant
            i <= morceaux@.len(),
            vue == morceaux@.map_values(|v: Vec<u8>| v@),
            t@.len() <= place,
            ecrit_dans(t@, vue.skip(i as int), place as nat) == ecrit_dans(Seq::<u8>::empty(), vue, place as nat),
        decreases morceaux@.len() - i,
    {
        let m = &morceaux[i];
        assert(vue.skip(i as int)[0] == m@);
        if m.len() > place - t.len() {
            return t;
        }
        let ghost avant = t@;
        let mut j: usize = 0;
        while j < m.len()
            invariant
                j <= m@.len(),
                t@ == avant + m@.take(j as int),
            decreases m@.len() - j,
        {
            t.push(m[j]);
            assert(m@.take(j + 1) =~= m@.take(j as int).push(m@[j as int]));
            j = j + 1;
        }
        assert(m@.take(j as int) =~= m@);
        assert(vue.skip(i as int).drop_first() =~= vue.skip(i + 1));
        i = i + 1;
    }
    assert(vue.skip(i as int) =~= Seq::<Seq<u8>>::empty());
    t
}

/// Formate un nombre de minutes en `XhYY`, sur au plus `PLACE_HM` octets.
pub fn formater_hm(total_min: u32) -> (t: Vec<u8>)
    ensures
        t@ == texte_hm(total_min),
{
    let mut m: Vec<Vec<u8>> = Vec::new();
    m.push(decimal_seul((total_min / 60) as u64));
    m.push(octet_seul(104u8));
    pousser_morceaux_2(&mut m, (total_min % 60) as u64);
    assert(m@.map_values(|v: Vec<u8>| v@) =~= morceaux_hm(total_min));
    ecrire_dans(&m, PLACE_HM)
}

/// Formate une durée (temps de fonctionnement) en `XjYhZm` ou `XhYYm`, sur au plus
/// `PLACE_DUREE` octets.
pub fn formater_duree(secondes: u64) -> (t: Vec<u8>)
    ensures
        t@ == texte_duree(secondes),
{
    let jours = secondes / 86400;
    let heures = (secondes % 86400) / 3600;
    let minutes = (secondes % 3600) / 60;
    let mut m: Vec<Vec<u8>> = Vec::new();
    if jours > 0 {
        m.push(decimal_seul(jours));
        m.push(octet_seul(106u8));
        m.push(decimal_seul(heures));
        m.push(octet_seul(104u8));
        m.push(decimal_seul(minutes));
    } else {
        m.push(decimal_seul(heures));
        m.push(octet_seul(104u8));
        assert(m@.map_values(|v: Vec<u8>| v@) =~= seq![decimal(heures as nat), seq![104u8]]);
        pousser_morceaux_2(&mut m, minutes);
    }
    let ghost avant = m@.map_values(|v: Vec<u8>| v@);
    m.push(octet_seul(109u8));
    assert(m@.map_values(|v: Vec<u8>| v@) =~= avant.push(seq![109u8]));
    assert(m@.map_values(|v: Vec<u8>| v@) =~= morceaux_duree(secondes));
    ecrire_dans(&m, PLACE_DUREE)
}

/// État de la navigation entre les pages et de la veille.
pub struct EtatNavigation {
    pub page: u8,
    pub bouton_precedent: bool,
    pub appui_depuis: Option<u64>,
    pub appui_traite: bool,
    pub dernier_changement_page: u64,
    pub derniere_activite: u64,
    pub en_veille: bool,
}

/// Lecture du bouton (`actif` = appuyé) à l'instant `t` : appui court (relâché) = page
/// suivante, appui long = retour à la page 0, écran en veille = le relâchement réveille
/// sans changer de page ; puis retour automatique à la page 0 après inactivité.
pub open spec fn etape_bouton(e: EtatNavigation, actif: bool, t: u64) -> EtatNavigation {
    let (appui_depuis, appui_traite) = if actif && !e.bouton_precedent { (Some(t), false) } else { (e.appui_depuis, e.appui_traite) };
    let e1 = EtatNavigation { appui_depuis, appui_traite, ..e };
    let e2 = if e1.en_veille {
        if !actif && e1.bouton_precedent {
            EtatNavigation { en_veille: false, derniere_activite: t, appui_traite: true, ..e1 }
        } else {
            e1
        }
    } else {
        let a = if actif && !e1.appui_traite && e1.appui_depuis is Some && ecart(t, e1.appui_depuis->0) >= APPUI_LONG_MS {
            EtatNavigation { page: 0, dernier_changement_page: t, derniere_activite: t, appui_traite: true, ..e1 }
        } else {
            e1
        };
        if !actif && a.bouton_precedent && !a.appui_traite {
            EtatNavigation { page: ((a.page + 1) % (NB_PAGES as int)) as u8, dernier_changement_page: t, derniere_activite: t, ..a }
        } else {
            a
        }
    };
    let e3 = EtatNavigation { bouton_precedent: actif, ..e2 };
    if e3.page != 0 && ecart(t, e3.dernier_changement_page) >= RETOUR_AUTO_APRES_MS {
        EtatNavigation { page: 0, ..e3 }
    } else {
        e3
    }
}

/// Veille à l'instant `t` : une alerte réveille toujours l'écran ; sinon il s'endort
/// après `VEILLE_APRES_MS` sans activité.
pub open spec fn etape_veille(e: EtatNavigation, alerte_active: bool, t: u64) -> EtatNavigation {
    if alerte_active {
        EtatNavigation { en_veille: false, derniere_activite: t, ..e }
    } else if !e.en_veille && ecart(t, e.derniere_activite) >= VEILLE_APRES_MS {
        EtatNavigation { en_veille: true, ..e }
    } else {
        e
    }
}

/// Une alerte active réveille l'écran.
pub proof fn loi_alerte_reveille(e: EtatNavigation, t: u64)
    ensures
        !etape_veille(e, true, t).en_veille,
{
}

/// La page reste toujours l'une des `NB_PAGES` pages.
pub proof fn loi_page_valide(e: EtatNavigation, actif: bool, t: u64)
    requires
        e.page < NB_PAGES,
    ensures
        etape_bouton(e, actif, t).page < NB_PAGES,
{
}

/// Une page autre que la première n'est jamais restée affichée plus de
/// `RETOUR_AUTO_APRES_MS` sans changement : l'écran revient alors à la page 0.
pub proof fn loi_retour_automatique(e: EtatNavigation, actif: bool, t: u64)
    ensures
        etape_bouton(e, actif, t).page != 0 ==> ecart(t, etape_bouton(e, actif, t).dernier_changement_page) < RETOUR_AUTO_APRES_MS,
{
}

/// Un appui maintenu au moins `APPUI_LONG_MS`, écran allumé, ramène à la page 0.
pub proof fn loi_appui_long(e: EtatNavigation, t: u64)
    requires
        !e.en_veille,
        e.bouton_precedent,
        !e.appui_traite,
        e.appui_depuis is Some,
        ecart(t, e.appui_depuis->0) >= APPUI_LONG_MS,
    ensures
        etape_bouton(e, true, t).page == 0,
{
}

/// Un relâchement pendant la veille réveille l'écran sans changer de page (hors retour
/// automatique à la page 0).
pub proof fn loi_reveil_sans_changement(e: EtatNavigation, t: u64)
    requires
        e.en_veille,
        e.bouton_precedent,
    ensures
        !etape_bouton(e, false, t).en_veille,
        etape_bouton(e, false, t).page == e.page || etape_bouton(e, false, t).page == 0,
{
}

/// Navigation entre les pages de l'écran et mise en veille.
pub struct NavigationEcran {
    page: u8,
    bouton_precedent: bool,
    appui_depuis: Option<u64>,
    appui_traite: bool,
    dernier_changement_page: u64,
    derniere_activite: u64,
    en_veille: bool,
}

impl View for NavigationEcran {
    type V = EtatNavigation;

    closed spec fn view(&self) -> EtatNavigation {
        EtatNavigation {
            page: self.page,
            bouton_precedent: self.bouton_precedent,
            appui_depuis: self.appui_depuis,
            appui_traite: self.appui_traite,
            dernier_changement_page: self.dernier_changement_page,
            derniere_activite: self.derniere_activite,
            en_veille: self.en_veille,
        }
    }
}

impl NavigationEcran {
    #[verifier::type_invariant]
    closed spec fn page_valide(self) -> bool {
        self.page < NB_PAGES
    }

    /// Page 0, écran allumé, à l'instant `maintenant_ms`.
    pub fn nouvelle(maintenant_ms: u64) -> (n: Self)
        ensures
            n@ == (EtatNavigation {
                page: 0,
                bouton_precedent: false,
                appui_depuis: None,
                appui_traite: false,
                dernier_changement_page: maintenant_ms,
                derniere_activite: maintenant_ms,
                en_veille: false,
            }),
    {
        NavigationEcran {
            page: 0,
            bouton_precedent: false,
            appui_depuis: None,
            appui_traite: false,
            dernier_changement_page: maintenant_ms,
            derniere_activite: maintenant_ms,
            en_veille: false,
        }
    }

    /// Lecture du bouton à l'instant `maintenant_ms`.
    pub fn bouton_a(&mut self, actif: bool, maintenant_ms: u64)
        ensures
            final(self)@ == etape_bouton(old(self)@, actif, maintenant_ms),
    {
        proof { use_type_invariant(&*self); }
        let t = maintenant_ms;
        if actif && !self.bouton_precedent {
            self.appui_depuis = Some(t);
            self.appui_traite = false;
        }
        if self.en_veille {
            if !actif && self.bouton_precedent {
                self.en_veille = false;
                self.derniere_activite = t;
                self.appui_traite = true;
            }
        } else {
            let long = match self.appui_depuis {
                Some(d) => (if t >= d { t - d } else { 0 }) >= APPUI_LONG_MS,
                None => false,
            };
            if actif && !self.appui_traite && long {
                self.page = 0;
                self.dernier_changement_page = t;
                self.derniere_activite = t;
                self.appui_traite = true;
            }
            if !actif && self.bouton_precedent && !self.appui_traite {
                self.page = (self.page + 1) % NB_PAGES;
                self.dernier_changement_page = t;
                self.derniere_activite = t;
            }
        }
        self.bouton_precedent = actif;
        let ecoule = if t >= self.dernier_changement_page { t - self.dernier_changement_page } else { 0 };
        if self.page != 0 && ecoule >= RETOUR_AUTO_APRES_MS {
            self.page = 0;
        }
    }

    /// Met à jour la veille à l'instant `maintenant_ms`.
    pub fn veille_a(&mut self, alerte_active: bool, maintenant_ms: u64)
        ensures
            final(self)@ == etape_veille(old(self)@, alerte_active, maintenant_ms),
    {
        proof { use_type_invariant(&*self); }
        if alerte_active {
            self.en_veille = false;
            self.derniere_activite = maintenant_ms;
        } else {
            let ecoule = if maintenant_ms >= self.derniere_activite { maintenant_ms - self.derniere_activite } else { 0 };
            if !self.en_veille && ecoule >= VEILLE_APRES_MS {
                self.en_veille = true;
            }
        }
    }

    pub fn page(&self) -> (p: u8)
        ensures
            p == self@.page,
            p < NB_PAGES,
    {
        proof { use_type_invariant(self); }
        self.page
    }

    pub fn en_veille(&self) -> (v: bool)
        ensures
            v == self@.en_veille,
    {
        self.en_veille
    }
}

} // verus!
