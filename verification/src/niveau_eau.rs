//! Niveau d'eau : hystérésis à deux seuils et filtre temporel anti-vaguelettes.
use crate::horloge::Horloge;
use crate::pompe::ecart;
use vstd::prelude::*;

verus! {

/// En dessous (échelle ADC 12 bits) : manque d'eau certain.
pub const SEUIL_BAS: u16 = 1800;
/// Au-dessus : niveau correct certain.
pub const SEUIL_HAUT: u16 = 2200;
/// Confirmation avant coupure, en millisecondes.
pub const DELAI_ARRET_MS: u64 = 3000;
/// Confirmation avant réarmement, en millisecondes.
pub const DELAI_OK_MS: u64 = 5000;

/// État logique du filtre de niveau.
pub struct EtatNiveau {
    /// Décision confirmée (`true` = niveau correct).
    pub filtre: bool,
    /// Décision brute visée, en attente de confirmation.
    pub cible: bool,
    /// Instant (ms) depuis lequel la cible n'a pas changé.
    pub depuis: u64,
    /// Aucune lecture n'a encore été faite depuis le démarrage.
    pub premiere_lecture: bool,
}

/// Décision brute avec hystérésis : entre les deux seuils (zone morte), la décision
/// précédente est conservée.
pub open spec fn decision_brute(precedente: bool, valeur_brute: u16) -> bool {
    if valeur_brute < SEUIL_BAS {
        false
    } else if valeur_brute > SEUIL_HAUT {
        true
    } else {
        precedente
    }
}

/// Une lecture ADC `valeur_brute` à l'instant `t`. La toute première lecture après
/// le démarrage est appliquée immédiatement ; ensuite, un changement n'est confirmé
/// qu'après `DELAI_ARRET_MS` (vers le manque) ou `DELAI_OK_MS` (vers le retour).
pub open spec fn etape_niveau(e: EtatNiveau, valeur_brute: u16, t: u64) -> EtatNiveau {
    let brut = decision_brute(e.cible, valeur_brute);
    if e.premiere_lecture {
        EtatNiveau { filtre: brut, cible: brut, depuis: t, premiere_lecture: false }
    } else {
        let (cible, depuis) = if brut != e.cible { (brut, t) } else { (e.cible, e.depuis) };
        let delai = if cible { DELAI_OK_MS } else { DELAI_ARRET_MS };
        let filtre = if ecart(t, depuis) >= delai { cible } else { e.filtre };
        EtatNiveau { filtre, cible, depuis, premiere_lecture: false }
    }
}

/// Hors première lecture, la décision confirmée ne change que vers une cible restée
/// stable pendant le délai correspondant.
pub proof fn loi_changement_confirme(e: EtatNiveau, valeur_brute: u16, t: u64)
    requires
        !e.premiere_lecture,
        etape_niveau(e, valeur_brute, t).filtre != e.filtre,
    ensures
        ({
            let s = etape_niveau(e, valeur_brute, t);
            &&& s.filtre == s.cible
            &&& s.cible ==> ecart(t, s.depuis) >= DELAI_OK_MS
            &&& !s.cible ==> ecart(t, s.depuis) >= DELAI_ARRET_MS
        }),
{
}

/// Le tout premier relevé après le démarrage est appliqué immédiatement, sans délai
/// de confirmation : un manque d'eau certain coupe dès ce relevé, un niveau correct
/// certain autorise la marche dès ce relevé.
pub proof fn loi_premiere_lecture_immediate(e: EtatNiveau, valeur_brute: u16, t: u64)
    requires
        e.premiere_lecture,
    ensures
        etape_niveau(e, valeur_brute, t).filtre == decision_brute(e.cible, valeur_brute),
        valeur_brute < SEUIL_BAS ==> !etape_niveau(e, valeur_brute, t).filtre,
        valeur_brute > SEUIL_HAUT ==> etape_niveau(e, valeur_brute, t).filtre,
        !etape_niveau(e, valeur_brute, t).premiere_lecture,
{
}

/// Niveau correct et stable : décision confirmée et cible vraies (ou aucune lecture
/// encore faite, comme au démarrage).
pub open spec fn niveau_correct_stable(e: EtatNiveau) -> bool {
    e.premiere_lecture && e.cible || e.filtre && e.cible
}

/// Une lecture de `SEUIL_BAS` ou plus ne fait jamais baisser le niveau : depuis le
/// démarrage, tant qu'aucune lecture n'est passée sous `SEUIL_BAS`, le niveau reste
/// correct (seule une lecture sous `SEUIL_BAS` peut le faire baisser).
pub proof fn loi_pas_de_baisse_sans_manque(e: EtatNiveau, valeur_brute: u16, t: u64)
    requires
        niveau_correct_stable(e),
        valeur_brute >= SEUIL_BAS,
    ensures
        niveau_correct_stable(etape_niveau(e, valeur_brute, t)),
        etape_niveau(e, valeur_brute, t).filtre,
{
}

/// Une lecture dans la zone morte ne change pas la cible.
pub proof fn loi_zone_morte(e: EtatNiveau, valeur_brute: u16, t: u64)
    requires
        SEUIL_BAS <= valeur_brute <= SEUIL_HAUT,
    ensures
        etape_niveau(e, valeur_brute, t).cible == e.cible,
{
}

/// Lecture du niveau d'eau avec hystérésis et filtrage temporel.
pub struct NiveauEau {
    filtre: bool,
    cible: bool,
    depuis: u64,
    premiere_lecture: bool,
    horloge: Horloge,
}

impl View for NiveauEau {
    type V = EtatNiveau;

    closed spec fn view(&self) -> EtatNiveau {
        EtatNiveau { filtre: self.filtre, cible: self.cible, depuis: self.depuis, premiere_lecture: self.premiere_lecture }
    }
}

impl NiveauEau {
    pub fn nouveau() -> (n: Self)
        ensures
            n@.filtre,
            n@.cible,
            n@.premiere_lecture,
            niveau_correct_stable(n@),
    {
        let horloge = Horloge::demarrer();
        let depuis = horloge.millisecondes();
        NiveauEau { filtre: true, cible: true, depuis, premiere_lecture: true, horloge }
    }

    /// Lecture ADC brute (0-4095) à l'instant `maintenant_ms` ; renvoie `true` si le
    /// niveau est correct.
    pub fn mettre_a_jour_a(&mut self, valeur_brute: u16, maintenant_ms: u64) -> (ok: bool)
        ensures
            final(self)@ == etape_niveau(old(self)@, valeur_brute, maintenant_ms),
            ok == final(self)@.filtre,
    {
        let mut brut = self.cible;
        if valeur_brute < SEUIL_BAS {
            brut = false;
        } else if valeur_brute > SEUIL_HAUT {
            brut = true;
        }

        if self.premiere_lecture {
            self.premiere_lecture = false;
            self.cible = brut;
            self.filtre = brut;
            self.depuis = maintenant_ms;
            return self.filtre;
        }

        if brut != self.cible {
            self.cible = brut;
            self.depuis = maintenant_ms;
        }

        let delai_requis = if self.cible { DELAI_OK_MS } else { DELAI_ARRET_MS };
        let ecoule = if maintenant_ms >= self.depuis { maintenant_ms - self.depuis } else { 0 };
        if ecoule >= delai_requis {
            self.filtre = self.cible;
        }
        self.filtre
    }

    /// Lecture ADC brute (0-4095) ; l'instant est lu sur l'horloge interne.
    pub fn mettre_a_jour(&mut self, valeur_brute: u16) -> (ok: bool)
        ensures
            exists|t: u64| final(self)@ == etape_niveau(old(self)@, valeur_brute, t),
            ok == final(self)@.filtre,
    {
        let t = self.horloge.millisecondes();
        self.mettre_a_jour_a(valeur_brute, t)
    }
}

} // verus!
