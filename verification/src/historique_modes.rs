//! Historique des modes de fonctionnement de la journée, pour la timeline du tableau
//! de bord. Les heures sont en secondes depuis minuit (heure locale).
use vstd::prelude::*;

verus! {

/// Nombre maximal de segments conservés dans une journée.
pub const MAX_SEGMENTS: usize = 64;

/// Un segment de la timeline. `fin` vaut `None` tant que le segment est en cours.
#[derive(Clone, Copy, Debug, PartialEq, Eq, Structural)]
pub struct Segment {
    pub debut: u32,
    pub fin: Option<u32>,
    pub type_segment: u8,
}

/// Ferme le dernier segment s'il est en cours.
pub open spec fn fermer_dernier(s: Seq<Segment>, heure: u32) -> Seq<Segment> {
    if s.len() > 0 && s.last().fin is None {
        s.update(s.len() - 1, Segment { fin: Some(heure), ..s.last() })
    } else {
        s
    }
}

/// Historique après `demarrer(type_segment, heure)` : le segment en cours est fermé,
/// puis un nouveau est ouvert s'il reste de la place.
pub open spec fn apres_demarrer(s: Seq<Segment>, type_segment: u8, heure: u32) -> Seq<Segment> {
    let s1 = fermer_dernier(s, heure);
    if s1.len() < MAX_SEGMENTS {
        s1.push(Segment { debut: heure, fin: None, type_segment })
    } else {
        s1
    }
}

/// Seul le dernier segment peut être en cours.
pub open spec fn seul_dernier_ouvert(s: Seq<Segment>) -> bool {
    forall|i: int| 0 <= i < s.len() - 1 ==> (#[trigger] s[i]).fin is Some
}

/// L'historique ne dépasse jamais `MAX_SEGMENTS` segments, et au plus le dernier
/// segment est en cours : `demarrer` préserve ces deux propriétés.
pub proof fn loi_historique_borne(s: Seq<Segment>, type_segment: u8, heure: u32)
    requires
        s.len() <= MAX_SEGMENTS,
        seul_dernier_ouvert(s),
    ensures
        apres_demarrer(s, type_segment, heure).len() <= MAX_SEGMENTS,
        seul_dernier_ouvert(apres_demarrer(s, type_segment, heure)),
{
    let s1 = fermer_dernier(s, heure);
    assert(forall|i: int| 0 <= i < s1.len() ==> (#[trigger] s1[i]).fin is Some || (i == s1.len() - 1 && s1.len() == s.len() && s1[i] == s[i] && s.last().fin is Some) || i < s.len() - 1);
    if s1.len() < MAX_SEGMENTS {
        let s2 = s1.push(Segment { debut: heure, fin: None, type_segment });
        assert forall|i: int| 0 <= i < s2.len() - 1 implies (#[trigger] s2[i]).fin is Some by {
            assert(s2[i] == s1[i]);
            if i == s.len() - 1 {
            } else {
                assert(s1[i] == s[i]);
            }
        }
    }
}

/// Le segment ouvert par `demarrer` commence à l'heure donnée, porte le type donné,
/// et le segment qui était en cours se termine à cette même heure.
pub proof fn loi_demarrer_enchaine(s: Seq<Segment>, type_segment: u8, heure: u32)
    requires
        s.len() < MAX_SEGMENTS,
    ensures
        apres_demarrer(s, type_segment, heure).len() == s.len() + 1,
        apres_demarrer(s, type_segment, heure).last() == (Segment { debut: heure, fin: None, type_segment }),
        s.len() > 0 && s.last().fin is None ==> apres_demarrer(s, type_segment, heure)[s.len() - 1].fin == Some(heure),
{
}

/// Historique des segments de la journée.
pub struct HistoriqueModes {
    segments: Vec<Segment>,
}

impl View for HistoriqueModes {
    type V = Seq<Segment>;

    closed spec fn view(&self) -> Seq<Segment> {
        self.segments@
    }
}

impl HistoriqueModes {
    pub fn nouveau() -> (h: Self)
        ensures
            h@ == Seq::<Segment>::empty(),
    {
        HistoriqueModes { segments: Vec::with_capacity(MAX_SEGMENTS) }
    }

    /// Reconstruit l'historique à partir de segments rechargés après un redémarrage.
    pub fn depuis_segments(segments: Vec<Segment>) -> (h: Self)
        ensures
            h@ == segments@,
    {
        HistoriqueModes { segments }
    }

    /// Reprise de la timeline du jour au démarrage : les segments rechargés s'il y en
    /// a, sinon une timeline neuve ouverte par un segment du type actuel à `heure`.
    /// Renvoie aussi le type du dernier segment, pour savoir quand en ouvrir un autre.
    pub fn reprendre(segments: Vec<Segment>, type_actuel: u8, heure: u32) -> (r: (HistoriqueModes, u8))
        ensures
            segments@.len() == 0 ==> r.0@ == apres_demarrer(Seq::<Segment>::empty(), type_actuel, heure)
                && r.1 == type_actuel,
            segments@.len() > 0 ==> r.0@ == segments@ && r.1 == segments@.last().type_segment,
    {
        let n = segments.len();
        if n == 0 {
            let mut h = HistoriqueModes::nouveau();
            h.demarrer(type_actuel, heure);
            (h, type_actuel)
        } else {
            let dernier = segments[n - 1].type_segment;
            (HistoriqueModes::depuis_segments(segments), dernier)
        }
    }

    /// Ferme le segment en cours (s'il y en a un) à `heure` et en ouvre un nouveau
    /// du type donné, s'il reste de la place.
    pub fn demarrer(&mut self, type_segment: u8, heure: u32)
        ensures
            final(self)@ == apres_demarrer(old(self)@, type_segment, heure),
    {
        let n = self.segments.len();
        if n > 0 {
            let dernier = self.segments[n - 1];
            if dernier.fin.is_none() {
                self.segments.set(n - 1, Segment { fin: Some(heure), ..dernier });
            }
        }
        assert(self.segments@ =~= fermer_dernier(old(self)@, heure));
        if self.segments.len() < MAX_SEGMENTS {
            self.segments.push(Segment { debut: heure, fin: None, type_segment });
        }
    }

    /// Remet l'historique à zéro (changement de jour).
    pub fn reinitialiser(&mut self)
        ensures
            final(self)@ == Seq::<Segment>::empty(),
    {
        self.segments.clear();
    }

    pub fn segments(&self) -> (s: &[Segment])
        ensures
            s@ == self@,
    {
        self.segments.as_slice()
    }
}

} // verus!
