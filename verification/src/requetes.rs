//! Lecture des paramètres d'une requête HTTP simple (`/chemin?a=1&b=2`).
use crate::etat_partage::Mode;
use vstd::prelude::*;
use vstd::string::StrSliceExecFns;

verus! {

/// Morceaux d'une suite séparés par `sep` (comme `str::split`).
pub open spec fn decouper(s: Seq<char>, sep: char) -> Seq<Seq<char>>
    decreases s.len(),
{
    if s.len() == 0 {
        seq![Seq::<char>::empty()]
    } else {
        let reste = decouper(s.drop_first(), sep);
        if s[0] == sep {
            seq![Seq::<char>::empty()] + reste
        } else {
            reste.update(0, seq![s[0]] + reste[0])
        }
    }
}

/// `s` commence par `prefixe`.
pub open spec fn commence_par(s: Seq<char>, prefixe: Seq<char>) -> bool {
    s.len() >= prefixe.len() && s.take(prefixe.len() as int) == prefixe
}

/// Premier morceau commençant par `prefixe`, privé de ce préfixe.
pub open spec fn premier_avec_prefixe(morceaux: Seq<Seq<char>>, prefixe: Seq<char>) -> Option<Seq<char>>
    decreases morceaux.len(),
{
    if morceaux.len() == 0 {
        None
    } else if commence_par(morceaux[0], prefixe) {
        Some(morceaux[0].skip(prefixe.len() as int))
    } else {
        premier_avec_prefixe(morceaux.drop_first(), prefixe)
    }
}

/// Valeur du paramètre `cle` : dans la partie qui suit le premier `?` (jusqu'au
/// suivant), le premier morceau séparé par `&` qui commence par `cle=`.
pub open spec fn parametre_spec(uri: Seq<char>, cle: Seq<char>) -> Option<Seq<char>> {
    let parties = decouper(uri, '?');
    if parties.len() < 2 {
        None
    } else {
        premier_avec_prefixe(decouper(parties[1], '&'), cle.push('='))
    }
}

proof fn lemme_decouper_non_vide(s: Seq<char>, sep: char)
    ensures
        decouper(s, sep).len() >= 1,
    decreases s.len(),
{
    if s.len() > 0 {
        lemme_decouper_non_vide(s.drop_first(), sep);
    }
}

/// Sans séparateur, un seul morceau.
proof fn lemme_sans_separateur(s: Seq<char>, sep: char)
    requires
        forall|k: int| 0 <= k < s.len() ==> s[k] != sep,
    ensures
        decouper(s, sep) == seq![s],
    decreases s.len(),
{
    if s.len() > 0 {
        lemme_sans_separateur(s.drop_first(), sep);
        assert(seq![s[0]] + s.drop_first() =~= s);
        assert(decouper(s, sep) =~= seq![s]);
    } else {
        assert(s =~= Seq::<char>::empty());
    }
}

/// Au premier séparateur, position `p`, le texte se coupe en `s[..p]` et la suite.
proof fn lemme_coupe(s: Seq<char>, sep: char, p: int)
    requires
        0 <= p < s.len(),
        s[p] == sep,
        forall|k: int| 0 <= k < p ==> s[k] != sep,
    ensures
        decouper(s, sep) == seq![s.take(p)] + decouper(s.skip(p + 1), sep),
    decreases p,
{
    if p == 0 {
        assert(s.drop_first() =~= s.skip(1));
        assert(s.take(0) =~= Seq::<char>::empty());
    } else {
        let t = s.drop_first();
        lemme_coupe(t, sep, p - 1);
        assert(t.skip(p) =~= s.skip(p + 1));
        assert(seq![s[0]] + t.take(p - 1) =~= s.take(p));
        lemme_decouper_non_vide(s.skip(p + 1), sep);
        assert(decouper(s, sep) =~= seq![s.take(p)] + decouper(s.skip(p + 1), sep));
    }
}

/// Premier indice `k` dans `[debut, fin)` où `c` apparaît, ou `fin`.
fn chercher(uri: &str, c: char, debut: usize, fin: usize) -> (k: usize)
    requires
        debut <= fin <= uri@.len(),
    ensures
        debut <= k <= fin,
        k < fin ==> uri@[k as int] == c,
        forall|j: int| debut <= j < k ==> uri@[j] != c,
{
    let mut k = debut;
    while k < fin && uri.get_char(k) != c
        invariant
            debut <= k <= fin,
            fin <= uri@.len(),
            forall|j: int| debut <= j < k ==> uri@[j] != c,
        decreases fin - k,
    {
        k = k + 1;
    }
    k
}

/// Le morceau `uri[a..b)` commence par `cle=`.
fn commence_par_cle(uri: &str, a: usize, b: usize, cle: &str) -> (r: bool)
    requires
        a <= b <= uri@.len(),
    ensures
        r == commence_par(uri@.subrange(a as int, b as int), cle@.push('=')),
{
    let m = cle.unicode_len();
    if b - a <= m {
        return false;
    }
    let mut i: usize = 0;
    while i < m
        invariant
            m == cle@.len(),
            a + m + 1 <= b <= uri@.len(),
            i <= m,
            forall|j: int| 0 <= j < i ==> uri@[a + j] == cle@[j],
        decreases m - i,
    {
        if uri.get_char(a + i) != cle.get_char(i) {
            assert(uri@.subrange(a as int, b as int).take(m + 1)[i as int] != cle@.push('=')[i as int]);
            return false;
        }
        i = i + 1;
    }
    let r = uri.get_char(a + m) == '=';
    assert(r ==> uri@.subrange(a as int, b as int).take(m + 1) =~= cle@.push('='));
    assert(!r ==> uri@.subrange(a as int, b as int).take(m + 1)[m as int] != cle@.push('=')[m as int]);
    r
}

/// Extrait la valeur d'un paramètre de requête simple (`?a=1&b=2`), sans décodage URL.
pub fn parametre<'a>(uri: &'a str, cle: &str) -> (r: Option<&'a str>)
    ensures
        match r {
            Some(v) => parametre_spec(uri@, cle@) == Some(v@),
            None => parametre_spec(uri@, cle@) is None,
        },
{
    let n = uri.unicode_len();
    let q = chercher(uri, '?', 0, n);
    let ghost u = uri@;
    if q == n {
        proof {
            assert(u.subrange(0, n as int) =~= u);
            lemme_sans_separateur(u, '?');
        }
        return None;
    }
    let debut = q + 1;
    let fin = chercher(uri, '?', debut, n);
    let ghost partie = u.subrange(debut as int, fin as int);
    proof {
        lemme_coupe(u, '?', q as int);
        let apres = u.skip(q + 1);
        if fin < n {
            lemme_coupe(apres, '?', fin - debut);
            assert(apres.take(fin - debut) =~= partie);
        } else {
            assert(apres =~= partie);
            lemme_sans_separateur(apres, '?');
        }
        lemme_decouper_non_vide(apres, '?');
        assert(decouper(u, '?')[1] == partie);
    }
    let ghost pre = cle@.push('=');
    let mut a = debut;
    loop
        invariant
            debut <= a <= fin <= n,
            n == uri@.len(),
            u == uri@,
            pre == cle@.push('='),
            parametre_spec(u, cle@) == premier_avec_prefixe(decouper(u.subrange(a as int, fin as int), '&'), pre),
        decreases fin - a,
    {
        let b = chercher(uri, '&', a, fin);
        let ghost s = u.subrange(a as int, fin as int);
        proof {
            if b < fin {
                lemme_coupe(s, '&', b - a);
                assert(s.take(b - a) =~= u.subrange(a as int, b as int));
                assert(s.skip(b - a + 1) =~= u.subrange(b + 1, fin as int));
            } else {
                lemme_sans_separateur(s, '&');
            }
        }
        if commence_par_cle(uri, a, b, cle) {
            let m = cle.unicode_len();
            let v = uri.substring_char(a + m + 1, b);
            assert(v@ =~= u.subrange(a as int, b as int).skip(pre.len() as int));
            return Some(v);
        }
        if b == fin {
            assert(u.subrange(a as int, b as int) == s);
            assert(decouper(s, '&').drop_first() =~= Seq::<Seq<char>>::empty());
            assert(premier_avec_prefixe(Seq::<Seq<char>>::empty(), pre) is None);
            assert(premier_avec_prefixe(decouper(s, '&'), pre) == premier_avec_prefixe(decouper(s, '&').drop_first(), pre));
            return None;
        }
        proof {
            let ms = decouper(s, '&');
            assert(ms.drop_first() =~= decouper(u.subrange(b + 1, fin as int), '&'));
        }
        a = b + 1;
    }
}


/// Égalité de deux textes.
pub fn textes_egaux(a: &str, b: &str) -> (r: bool)
    ensures
        r == (a@ == b@),
{
    let n = a.unicode_len();
    if n != b.unicode_len() {
        return false;
    }
    let mut i: usize = 0;
    while i < n
        invariant
            n == a@.len(),
            n == b@.len(),
            i <= n,
            forall|j: int| 0 <= j < i ==> a@[j] == b@[j],
        decreases n - i,
    {
        if a.get_char(i) != b.get_char(i) {
            return false;
        }
        i = i + 1;
    }
    assert(a@ =~= b@);
    true
}

/// Refus d'une commande reçue depuis la page web.
#[derive(Clone, Copy, Debug, PartialEq, Eq, Structural)]
pub enum Refus {
    /// La commande n'est pas disponible dans le mode actuel (réponse 403).
    ModeIncorrect,
    /// Paramètre manquant ou invalide (réponse 400).
    ParametreInvalide,
}

/// Commande manuelle de la pompe : acceptée en mode MANUEL seulement, avec
/// `status=on` (marche) ou `status=off` (arrêt).
pub open spec fn commande_pompe_spec(mode: Mode, statut: Option<Seq<char>>) -> Result<bool, Refus> {
    if mode != Mode::Manuel {
        Err(Refus::ModeIncorrect)
    } else {
        match statut {
            Some(s) => if s == "on"@ { Ok(true) } else if s == "off"@ { Ok(false) } else { Err(Refus::ParametreInvalide) },
            None => Err(Refus::ParametreInvalide),
        }
    }
}

/// La commande manuelle n'est acceptée qu'en mode MANUEL, et le boost qu'en mode AUTO,
/// quel que soit le paramètre reçu.
pub proof fn loi_commandes_selon_mode(mode: Mode, parametre: Option<Seq<char>>)
    ensures
        mode != Mode::Manuel ==> commande_pompe_spec(mode, parametre) == Err::<bool, Refus>(Refus::ModeIncorrect),
        mode != Mode::Auto ==> commande_boost_spec(mode, parametre) == Err::<CommandeBoost, Refus>(Refus::ModeIncorrect),
{
}

/// Décide de la commande manuelle de la pompe (route `/pump`) : la demande de marche,
/// ou le refus.
pub fn commande_pompe(mode: Mode, statut: Option<&str>) -> (r: Result<bool, Refus>)
    ensures
        r == commande_pompe_spec(mode, match statut { Some(s) => Some(s@), None => None }),
{
    if mode != Mode::Manuel {
        return Err(Refus::ModeIncorrect);
    }
    match statut {
        Some(s) => if textes_egaux(s, "on") {
            Ok(true)
        } else if textes_egaux(s, "off") {
            Ok(false)
        } else {
            Err(Refus::ParametreInvalide)
        },
        None => Err(Refus::ParametreInvalide),
    }
}

/// Commande du boost reçue depuis la page web.
#[derive(Clone, Copy, Debug, PartialEq, Eq, Structural)]
pub enum CommandeBoost {
    Demarrer,
    Arreter,
}

/// Commande du boost : acceptée en mode AUTO seulement, avec `action=start` ou
/// `action=stop`.
pub open spec fn commande_boost_spec(mode: Mode, action: Option<Seq<char>>) -> Result<CommandeBoost, Refus> {
    if mode != Mode::Auto {
        Err(Refus::ModeIncorrect)
    } else {
        match action {
            Some(s) => if s == "start"@ {
                Ok(CommandeBoost::Demarrer)
            } else if s == "stop"@ {
                Ok(CommandeBoost::Arreter)
            } else {
                Err(Refus::ParametreInvalide)
            },
            None => Err(Refus::ParametreInvalide),
        }
    }
}

/// Décide de la commande du boost (route `/boost`).
pub fn commande_boost(mode: Mode, action: Option<&str>) -> (r: Result<CommandeBoost, Refus>)
    ensures
        r == commande_boost_spec(mode, match action { Some(s) => Some(s@), None => None }),
{
    if mode != Mode::Auto {
        return Err(Refus::ModeIncorrect);
    }
    match action {
        Some(s) => if textes_egaux(s, "start") {
            Ok(CommandeBoost::Demarrer)
        } else if textes_egaux(s, "stop") {
            Ok(CommandeBoost::Arreter)
        } else {
            Err(Refus::ParametreInvalide)
        },
        None => Err(Refus::ParametreInvalide),
    }
}

} // verus!
