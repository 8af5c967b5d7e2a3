//! Limitador de intentos en memoria contra la fuerza bruta en el inicio de
//! sesión y el abuso del restablecimiento de contraseña.
//!
//! Cada clave lleva su número de fallos y el instante del primero; pasada la
//! ventana de tiempo el contador se olvida. Los instantes se miden en
//! nanosegundos desde la creación del limitador.
use vstd::prelude::*;
use crate::texto::mismo_texto;

verus! {

#[verifier::external_type_specification]
#[verifier::external_body]
pub struct ExInstante(std::time::Instant);

/// `Instant::now`: el instante actual; nada se afirma de su valor.
#[verifier::external_body]
fn ahora() -> (r: std::time::Instant) {
    std::time::Instant::now()
}

/// `Instant::elapsed` en nanosegundos (`Duration::as_nanos`): el tiempo
/// transcurrido desde `desde`. Depende del reloj: nada se afirma del
/// resultado.
#[verifier::external_body]
fn nanos_transcurridos(desde: &std::time::Instant) -> (r: u128) {
    desde.elapsed().as_nanos()
}

/// Nanosegundos de una duración según `Duration::as_nanos`.
pub uninterp spec fn nanos_de_duracion(d: std::time::Duration) -> u128;

/// `Duration::as_nanos`: la duración en nanosegundos. `Duration` es opaca
/// para Verus; el contrato afirma que el valor es función de la duración.
#[verifier::external_body]
fn nanos_de(d: &std::time::Duration) -> (r: u128)
    ensures
        r == nanos_de_duracion(*d),
{
    d.as_nanos()
}

/// Fallos de una clave y el instante del primero (nanosegundos desde la
/// creación del limitador).
pub struct Entrada {
    pub fallos: u32,
    pub primer_fallo: u128,
}

/// Mapa de las claves a sus fallos y el instante del primero.
pub open spec fn mapa_entradas(s: Seq<(String, Entrada)>) -> Map<Seq<char>, (u32, u128)>
    decreases s.len(),
{
    if s.len() == 0 {
        Map::empty()
    } else {
        mapa_entradas(s.drop_last()).insert(
            s.last().0@,
            (s.last().1.fallos, s.last().1.primer_fallo),
        )
    }
}

/// Ninguna clave se repite.
pub open spec fn claves_unicas(s: Seq<(String, Entrada)>) -> bool {
    forall|i: int, j: int| 0 <= i < j < s.len() ==> (#[trigger] s[i]).0@ != (#[trigger] s[j]).0@
}

/// La ventana que empezó en `inicio` ya pasó en `ahora`: transcurrió más de
/// `ventana` (un reloj que no avanzó cuenta como cero).
pub open spec fn vencida(inicio: u128, ahora: u128, ventana: u128) -> bool {
    ahora > inicio && ahora - inicio > ventana
}

/// Consulta en `ahora`: si la clave está bloqueada y las entradas después.
/// Una ventana vencida se olvida y da `false`; si no, bloquea al alcanzar el
/// límite.
pub open spec fn tras_consulta(
    m: Map<Seq<char>, (u32, u128)>,
    k: Seq<char>,
    ahora: u128,
    ventana: u128,
    limite: u32,
) -> (bool, Map<Seq<char>, (u32, u128)>) {
    if !m.contains_key(k) {
        (false, m)
    } else if vencida(m[k].1, ahora, ventana) {
        (false, m.remove(k))
    } else {
        (m[k].0 >= limite, m)
    }
}

/// Entradas tras un fallo en `ahora`: la cuenta empieza en uno (en `ahora`)
/// si la clave no tenía fallos o su ventana venció; si no, sube en uno sin
/// pasar de `u32::MAX` y la ventana sigue.
pub open spec fn tras_fallo(
    m: Map<Seq<char>, (u32, u128)>,
    k: Seq<char>,
    ahora: u128,
    ventana: u128,
) -> Map<Seq<char>, (u32, u128)> {
    if !m.contains_key(k) || vencida(m[k].1, ahora, ventana) {
        m.insert(k, (1u32, ahora))
    } else {
        m.insert(
            k,
            (
                if m[k].0 == u32::MAX {
                    u32::MAX
                } else {
                    (m[k].0 + 1) as u32
                },
                m[k].1,
            ),
        )
    }
}

/// Entradas tras los fallos de la clave `k` en los instantes `ts`, en orden.
pub open spec fn tras_fallos(
    m: Map<Seq<char>, (u32, u128)>,
    k: Seq<char>,
    ts: Seq<u128>,
    ventana: u128,
) -> Map<Seq<char>, (u32, u128)>
    decreases ts.len(),
{
    if ts.len() == 0 {
        m
    } else {
        tras_fallo(tras_fallos(m, k, ts.drop_last(), ventana), k, ts.last(), ventana)
    }
}

/// Una clave sin fallos que falla `n` veces, todas dentro de la ventana que
/// abrió el primer fallo, queda con `n` fallos desde ese primer instante; y
/// una consulta dentro de esa ventana la da por bloqueada exactamente si
/// `n` alcanza el límite. Las demás claves no cambian.
pub proof fn ley_bloqueo_en_ventana(
    m: Map<Seq<char>, (u32, u128)>,
    k: Seq<char>,
    ts: Seq<u128>,
    ventana: u128,
    limite: u32,
    t: u128,
)
    requires
        !m.contains_key(k),
        0 < ts.len() < u32::MAX,
        forall|i: int| 0 <= i < ts.len() ==> #[trigger] ts[i] <= ts[0] + ventana,
        t <= ts[0] + ventana,
    ensures
        tras_fallos(m, k, ts, ventana).contains_key(k),
        tras_fallos(m, k, ts, ventana)[k] == (ts.len() as u32, ts[0]),
        tras_fallos(m, k, ts, ventana).remove(k) == m,
        tras_consulta(tras_fallos(m, k, ts, ventana), k, t, ventana, limite) == (
            ts.len() >= limite,
            tras_fallos(m, k, ts, ventana),
        ),
    decreases ts.len(),
{
    let p = ts.drop_last();
    if ts.len() == 1 {
        assert(tras_fallos(m, k, p, ventana) == m);
        assert(ts.last() == ts[0]);
        assert(m.insert(k, (1u32, ts[0])).remove(k) =~= m);
    } else {
        assert forall|i: int| 0 <= i < p.len() implies #[trigger] p[i] <= p[0] + ventana by {
            assert(p[i] == ts[i]);
        }
        ley_bloqueo_en_ventana(m, k, p, ventana, limite, t);
        let q = tras_fallos(m, k, p, ventana);
        assert(p[0] == ts[0]);
        assert(ts.last() == ts[ts.len() - 1]);
        assert(!vencida(ts[0], ts.last(), ventana));
        let r = q.insert(k, (ts.len() as u32, ts[0]));
        assert(tras_fallos(m, k, ts, ventana) == r);
        assert(r.remove(k) =~= q.remove(k));
    }
}

/// Limitador de intentos: a lo sumo `max_intentos` fallos por clave dentro
/// de la ventana.
pub struct RateLimiter {
    intentos: Vec<(String, Entrada)>,
    max_intentos: u32,
    ventana: std::time::Duration,
    ventana_ns: u128,
    origen: std::time::Instant,
}

impl RateLimiter {
    /// Por clave, sus fallos y el instante del primero.
    pub closed spec fn entradas(&self) -> Map<Seq<char>, (u32, u128)> {
        mapa_entradas(self.intentos@)
    }

    /// Fallos permitidos dentro de la ventana.
    pub closed spec fn limite(&self) -> u32 {
        self.max_intentos
    }

    /// Duración de la ventana.
    pub closed spec fn duracion(&self) -> std::time::Duration {
        self.ventana
    }

    /// Duración de la ventana en nanosegundos.
    pub closed spec fn ventana_ns(&self) -> u128 {
        self.ventana_ns
    }

    /// El estado interno es coherente.
    pub closed spec fn bien_formado(&self) -> bool {
        claves_unicas(self.intentos@)
    }

    /// Limitador sin fallos registrados.
    pub fn new(max_intentos: u32, ventana: std::time::Duration) -> (r: RateLimiter)
        ensures
            r.bien_formado(),
            r.entradas() == Map::<Seq<char>, (u32, u128)>::empty(),
            r.limite() == max_intentos,
            r.duracion() == ventana,
            r.ventana_ns() == nanos_de_duracion(ventana),
    {
        let ventana_ns = nanos_de(&ventana);
        RateLimiter { intentos: Vec::new(), max_intentos, ventana, ventana_ns, origen: ahora() }
    }

    fn posicion(&self, key: &str) -> (r: Option<usize>)
        requires
            self.bien_formado(),
        ensures
            match r {
                Some(i) => i < self.intentos@.len() && self.intentos@[i as int].0@ == key@,
                None => forall|j: int| 0 <= j < self.intentos@.len() ==> (#[trigger] self.intentos@[j]).0@ != key@,
            },
    {
        let mut i: usize = 0;
        while i < self.intentos.len()
            invariant
                i <= self.intentos@.len(),
                forall|j: int| 0 <= j < i ==> (#[trigger] self.intentos@[j]).0@ != key@,
            decreases self.intentos.len() - i,
        {
            if mismo_texto(self.intentos[i].0.as_str(), key) {
                return Some(i);
            }
            i = i + 1;
        }
        None
    }

    /// Consulta la clave en el instante `ahora` (nanosegundos desde la
    /// creación del limitador): `true` si alcanzó el límite dentro de su
    /// ventana; una ventana vencida se olvida y da `false`.
    pub fn bloqueado_en(&mut self, key: &str, ahora: u128) -> (r: bool)
        requires
            old(self).bien_formado(),
        ensures
            final(self).bien_formado(),
            final(self).limite() == old(self).limite(),
            final(self).duracion() == old(self).duracion(),
            final(self).ventana_ns() == old(self).ventana_ns(),
            (r, final(self).entradas()) == tras_consulta(
                old(self).entradas(),
                key@,
                ahora,
                old(self).ventana_ns(),
                old(self).limite(),
            ),
    {
        match self.posicion(key) {
            None => {
                proof {
                    lema_ausente(self.intentos@, key@);
                }
                false
            },
            Some(i) => {
                proof {
                    lema_presente(self.intentos@, i as int);
                }
                let inicio = self.intentos[i].1.primer_fallo;
                if ahora > inicio && ahora - inicio > self.ventana_ns {
                    proof {
                        lema_quitar(self.intentos@, i as int);
                    }
                    self.intentos.remove(i);
                    false
                } else {
                    self.intentos[i].1.fallos >= self.max_intentos
                }
            },
        }
    }

    /// `true` si la clave alcanzó el límite dentro de la ventana actual. Si la
    /// ventana ya pasó, se olvidan sus fallos y da `false`. Es la consulta
    /// `bloqueado_en` en el instante que da el reloj.
    pub fn bloqueado(&mut self, key: &str) -> (r: bool)
        requires
            old(self).bien_formado(),
        ensures
            final(self).bien_formado(),
            final(self).limite() == old(self).limite(),
            final(self).duracion() == old(self).duracion(),
            final(self).ventana_ns() == old(self).ventana_ns(),
            exists|t: u128|
                (r, final(self).entradas()) == #[trigger] tras_consulta(
                    old(self).entradas(),
                    key@,
                    t,
                    old(self).ventana_ns(),
                    old(self).limite(),
                ),
    {
        let t = nanos_transcurridos(&self.origen);
        self.bloqueado_en(key, t)
    }

    /// Registra un fallo de la clave en el instante `ahora` (nanosegundos
    /// desde la creación del limitador): la cuenta empieza en uno si la clave
    /// no tenía fallos o su ventana venció, y si no sube en uno (sin pasar de
    /// `u32::MAX`).
    pub fn registrar_fallo_en(&mut self, key: &str, ahora: u128)
        requires
            old(self).bien_formado(),
        ensures
            final(self).bien_formado(),
            final(self).limite() == old(self).limite(),
            final(self).duracion() == old(self).duracion(),
            final(self).ventana_ns() == old(self).ventana_ns(),
            final(self).entradas() == tras_fallo(
                old(self).entradas(),
                key@,
                ahora,
                old(self).ventana_ns(),
            ),
    {
        match self.posicion(key) {
            None => {
                proof {
                    lema_ausente(self.intentos@, key@);
                    lema_agregar_unica(self.intentos@, key@);
                }
                let e = Entrada { fallos: 1, primer_fallo: ahora };
                let ghost antes = self.intentos@;
                self.intentos.push((crate::texto::a_string(key), e));
                proof {
                    assert(self.intentos@.drop_last() =~= antes);
                }
            },
            Some(i) => {
                proof {
                    lema_presente(self.intentos@, i as int);
                    lema_quitar(self.intentos@, i as int);
                }
                let (k, e) = self.intentos.remove(i);
                let nueva = if ahora > e.primer_fallo && ahora - e.primer_fallo > self.ventana_ns {
                    Entrada { fallos: 1, primer_fallo: ahora }
                } else {
                    Entrada { fallos: e.fallos.saturating_add(1), primer_fallo: e.primer_fallo }
                };
                proof {
                    lema_ausente_tras_quitar(self.intentos@, k@);
                    lema_agregar_unica(self.intentos@, k@);
                }
                let ghost antes = self.intentos@;
                self.intentos.push((k, nueva));
                proof {
                    assert(self.intentos@.drop_last() =~= antes);
                    assert(old(self).entradas().remove(key@).insert(
                        key@,
                        (nueva.fallos, nueva.primer_fallo),
                    ) =~= old(self).entradas().insert(key@, (nueva.fallos, nueva.primer_fallo)));
                }
            },
        }
    }

    /// Registra un fallo de la clave: es `registrar_fallo_en` en el instante
    /// que da el reloj.
    pub fn registrar_fallo(&mut self, key: &str)
        requires
            old(self).bien_formado(),
        ensures
            final(self).bien_formado(),
            final(self).limite() == old(self).limite(),
            final(self).duracion() == old(self).duracion(),
            final(self).ventana_ns() == old(self).ventana_ns(),
            exists|t: u128|
                final(self).entradas() == #[trigger] tras_fallo(
                    old(self).entradas(),
                    key@,
                    t,
                    old(self).ventana_ns(),
                ),
    {
        let t = nanos_transcurridos(&self.origen);
        self.registrar_fallo_en(key, t);
    }

    /// Olvida los fallos de la clave (tras un éxito).
    pub fn limpiar(&mut self, key: &str)
        requires
            old(self).bien_formado(),
        ensures
            final(self).bien_formado(),
            final(self).limite() == old(self).limite(),
            final(self).duracion() == old(self).duracion(),
            final(self).ventana_ns() == old(self).ventana_ns(),
            final(self).entradas() == old(self).entradas().remove(key@),
    {
        match self.posicion(key) {
            None => {
                proof {
                    lema_ausente(self.intentos@, key@);
                    assert(self.entradas().remove(key@) =~= self.entradas());
                }
            },
            Some(i) => {
                proof {
                    lema_quitar(self.intentos@, i as int);
                }
                self.intentos.remove(i);
            },
        }
    }
}

proof fn lema_ausente(s: Seq<(String, Entrada)>, k: Seq<char>)
    requires
        forall|j: int| 0 <= j < s.len() ==> (#[trigger] s[j]).0@ != k,
    ensures
        !mapa_entradas(s).contains_key(k),
    decreases s.len(),
{
    if s.len() > 0 {
        assert forall|j: int| 0 <= j < s.drop_last().len() implies (#[trigger] s.drop_last()[j]).0@
            != k by {
            assert(s.drop_last()[j] == s[j]);
        }
        lema_ausente(s.drop_last(), k);
        assert(s.last() == s[s.len() - 1]);
    }
}

proof fn lema_presente(s: Seq<(String, Entrada)>, i: int)
    requires
        claves_unicas(s),
        0 <= i < s.len(),
    ensures
        mapa_entradas(s).contains_key(s[i].0@),
        mapa_entradas(s)[s[i].0@] == (s[i].1.fallos, s[i].1.primer_fallo),
    decreases s.len(),
{
    if i < s.len() - 1 {
        let d = s.drop_last();
        assert(d[i] == s[i]);
        assert forall|a: int, b: int| 0 <= a < b < d.len() implies (#[trigger] d[a]).0@ != (
        #[trigger] d[b]).0@ by {
            assert(d[a] == s[a] && d[b] == s[b]);
        }
        lema_presente(d, i);
        assert(s.last() == s[s.len() - 1]);
    }
}

proof fn lema_quitar(s: Seq<(String, Entrada)>, i: int)
    requires
        claves_unicas(s),
        0 <= i < s.len(),
    ensures
        mapa_entradas(s.remove(i)) == mapa_entradas(s).remove(s[i].0@),
        claves_unicas(s.remove(i)),
    decreases s.len(),
{
    let d = s.drop_last();
    assert forall|a: int, b: int| 0 <= a < b < d.len() implies (#[trigger] d[a]).0@ != (
    #[trigger] d[b]).0@ by {
        assert(d[a] == s[a] && d[b] == s[b]);
    }
    let r = s.remove(i);
    assert forall|a: int, b: int| 0 <= a < b < r.len() implies (#[trigger] r[a]).0@ != (
    #[trigger] r[b]).0@ by {
        let a2 = if a < i {
            a
        } else {
            a + 1
        };
        let b2 = if b < i {
            b
        } else {
            b + 1
        };
        assert(r[a] == s[a2] && r[b] == s[b2]);
    }
    if i == s.len() - 1 {
        assert(r =~= d);
        assert forall|j: int| 0 <= j < d.len() implies (#[trigger] d[j]).0@ != s.last().0@ by {
            assert(d[j] == s[j]);
        }
        lema_ausente(d, s.last().0@);
        assert(mapa_entradas(s).remove(s[i].0@) =~= mapa_entradas(d));
    } else {
        assert(d[i] == s[i]);
        lema_quitar(d, i);
        assert(r =~= d.remove(i).push(s.last()));
        assert(r.drop_last() =~= d.remove(i));
        assert(s.last() == s[s.len() - 1]);
        assert(s.last().0@ != s[i].0@);
        assert(mapa_entradas(r) =~= mapa_entradas(s).remove(s[i].0@));
    }
}

proof fn lema_ausente_tras_quitar(s: Seq<(String, Entrada)>, k: Seq<char>)
    requires
        claves_unicas(s),
        !mapa_entradas(s).contains_key(k),
    ensures
        forall|j: int| 0 <= j < s.len() ==> (#[trigger] s[j]).0@ != k,
{
    assert forall|j: int| 0 <= j < s.len() implies (#[trigger] s[j]).0@ != k by {
        lema_presente(s, j);
    }
}

proof fn lema_agregar_unica(s: Seq<(String, Entrada)>, k: Seq<char>)
    requires
        claves_unicas(s),
        forall|j: int| 0 <= j < s.len() ==> (#[trigger] s[j]).0@ != k,
    ensures
        forall|x: (String, Entrada)| x.0@ == k ==> #[trigger] claves_unicas(s.push(x)),
{
    assert forall|x: (String, Entrada)| x.0@ == k implies #[trigger] claves_unicas(s.push(x)) by {
        let t = s.push(x);
        assert forall|a: int, b: int| 0 <= a < b < t.len() implies (#[trigger] t[a]).0@ != (
        #[trigger] t[b]).0@ by {
            assert(t[a] == s[a]);
            if b < s.len() {
                assert(t[b] == s[b]);
            }
        }
    }
}

} // verus!
