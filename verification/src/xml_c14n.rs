//! Canonicalización XML C14N (inclusiva, sin comentarios) en la forma simple
//! que usa la DGII: elementos, texto, declaraciones de espacios de nombres,
//! atributos ordenados y codificación de caracteres especiales.
//!
//! El análisis sintáctico lo hace `roxmltree`; este módulo recibe el recorrido
//! en preorden de los nodos del elemento raíz, con la profundidad de cada uno,
//! y produce el texto canónico.
use vstd::prelude::*;
use roxmltree::{Document, Node, NodeType};
use crate::texto::{a_string, caracteres, coincide, coincide_en, empujar, mismo_texto};

verus! {

/// Tipo de nodo del árbol XML.
#[derive(PartialEq, Eq, Structural, Clone, Copy, Debug)]
pub enum TipoNodo {
    Elemento,
    Texto,
    Otro,
}

/// Atributo de un elemento: URI del espacio de nombres, nombre local y valor.
#[derive(Clone, Debug)]
pub struct AtributoXml {
    pub espacio: Option<String>,
    pub nombre: String,
    pub valor: String,
}

/// Espacio de nombres en ámbito: prefijo (`None` el de por omisión) y URI.
#[derive(Clone, Debug)]
pub struct EspacioXml {
    pub prefijo: Option<String>,
    pub uri: String,
}

/// Un nodo tal como lo lee el analizador, sin sus espacios de nombres.
#[derive(Clone, Debug)]
pub struct NodoLeido {
    pub tipo: TipoNodo,
    /// Nombre local del elemento (vacío en nodos que no son elementos).
    pub nombre: String,
    pub atributos: Vec<AtributoXml>,
    /// Texto propio de un nodo de texto.
    pub texto: Option<String>,
    /// Número de ancestros del nodo, él incluido.
    pub profundidad: usize,
}

/// Espacios de nombres en ámbito en un nodo y en su elemento padre.
#[derive(Clone, Debug)]
pub struct EspaciosNodo {
    /// Espacios de nombres en ámbito en el elemento.
    pub espacios: Vec<EspacioXml>,
    /// Espacios de nombres en ámbito en el elemento padre (vacío en la raíz).
    pub espacios_padre: Vec<EspacioXml>,
}

/// Un nodo del documento en el recorrido en preorden.
#[derive(Clone, Debug)]
pub struct NodoPlano {
    pub tipo: TipoNodo,
    /// Nombre local del elemento (vacío en nodos que no son elementos).
    pub nombre: String,
    pub atributos: Vec<AtributoXml>,
    /// Espacios de nombres en ámbito en el elemento.
    pub espacios: Vec<EspacioXml>,
    /// Espacios de nombres en ámbito en el elemento padre (vacío en la raíz).
    pub espacios_padre: Vec<EspacioXml>,
    /// Texto propio de un nodo de texto.
    pub texto: Option<String>,
    /// Número de ancestros del nodo, él incluido.
    pub profundidad: usize,
}

/// Error de canonicalización: el texto no es XML bien formado.
#[derive(PartialEq, Eq, Structural, Clone, Debug)]
pub enum ErrorC14n {
    XmlInvalido,
}

#[verifier::external_type_specification]
#[verifier::external_body]
pub struct ExErrorRoxml(roxmltree::Error);

/// Recorrido en preorden que `roxmltree` da de los nodos del elemento raíz de
/// `xml`, o `None` si no es XML bien formado.
pub uninterp spec fn nodos_xml(xml: Seq<char>) -> Option<Seq<NodoLeido>>;

/// Espacios de nombres de cada nodo de ese mismo recorrido, o `None` si
/// `xml` no es XML bien formado.
pub uninterp spec fn espacios_xml(xml: Seq<char>) -> Option<Seq<EspaciosNodo>>;

/// Analiza `xml` con `roxmltree::Document::parse` y devuelve, en el orden de
/// `Node::descendants` del elemento raíz, cada nodo con su tipo, nombre,
/// atributos (`Node::attributes`, que no incluye las declaraciones `xmlns`),
/// texto (`Node::text`) y profundidad (`Node::ancestors().count()`).
/// El contrato sólo afirma que el resultado es función del texto.
#[verifier::external_body]
fn analizar_xml(xml: &str) -> (r: Result<Vec<NodoLeido>, roxmltree::Error>)
    ensures
        r matches Ok(v) ==> nodos_xml(xml@) == Some(v@),
        r is Err ==> nodos_xml(xml@) is None,
{
    let doc = Document::parse(xml)?;
    Ok(doc.root_element().descendants().map(|n| NodoLeido {
        tipo: match n.node_type() { NodeType::Element => TipoNodo::Elemento, NodeType::Text => TipoNodo::Texto, _ => TipoNodo::Otro },
        nombre: n.tag_name().name().into(),
        atributos: n.attributes().map(|a| AtributoXml { espacio: a.namespace().map(String::from), nombre: a.name().into(), valor: a.value().into() }).collect(),
        texto: n.text().map(String::from),
        profundidad: n.ancestors().count(),
    }).collect())
}

/// Analiza `xml` con `roxmltree::Document::parse` y devuelve, en el mismo
/// orden de `Node::descendants` del elemento raíz, los espacios de nombres en
/// ámbito (`Node::namespaces`) de cada nodo y de su elemento padre
/// (`Node::parent_element`). Como el análisis y el recorrido son los mismos,
/// falla exactamente cuando falla `analizar_xml` y da tantos elementos como
/// nodos; por lo demás el contrato sólo afirma que el resultado es función
/// del texto.
#[verifier::external_body]
fn espacios_de_xml(xml: &str) -> (r: Option<Vec<EspaciosNodo>>)
    ensures
        r matches Some(v) ==> espacios_xml(xml@) == Some(v@),
        r matches Some(v) ==> (nodos_xml(xml@) matches Some(n) && n.len() == v@.len()),
        r is None ==> espacios_xml(xml@) is None && nodos_xml(xml@) is None,
{
    let doc = Document::parse(xml).ok()?;
    let es = |n: Node| n.namespaces().map(|e| EspacioXml { prefijo: e.name().map(String::from), uri: e.uri().into() }).collect();
    Some(doc.root_element().descendants().map(|n| EspaciosNodo { espacios: es(n), espacios_padre: n.parent_element().map(es).unwrap_or_default() }).collect())
}

/// Un nodo con sus espacios de nombres.
pub open spec fn nodo_plano(n: NodoLeido, e: EspaciosNodo) -> NodoPlano {
    NodoPlano {
        tipo: n.tipo,
        nombre: n.nombre,
        atributos: n.atributos,
        espacios: e.espacios,
        espacios_padre: e.espacios_padre,
        texto: n.texto,
        profundidad: n.profundidad,
    }
}

/// Los nodos leídos, cada uno con sus espacios de nombres.
pub open spec fn nodos_planos(n: Seq<NodoLeido>, e: Seq<EspaciosNodo>) -> Seq<NodoPlano> {
    Seq::new(n.len(), |i: int| nodo_plano(n[i], e[i]))
}

/// El recorrido de `xml` con los espacios de nombres de cada nodo, si es XML
/// bien formado.
pub open spec fn xml_plano(xml: Seq<char>) -> Option<Seq<NodoPlano>> {
    match (nodos_xml(xml), espacios_xml(xml)) {
        (Some(n), Some(e)) => Some(nodos_planos(n, e)),
        _ => None,
    }
}

// ---------------------------------------------------------------------------
// Especificación
// ---------------------------------------------------------------------------

/// Sustitución de un carácter de texto.
pub open spec fn escape_texto(c: char) -> Seq<char> {
    if c == '&' {
        "&amp;"@
    } else if c == '<' {
        "&lt;"@
    } else if c == '>' {
        "&gt;"@
    } else if c == '\r' {
        "&#xD;"@
    } else {
        seq![c]
    }
}

/// Sustitución de un carácter en el valor de un atributo.
pub open spec fn escape_atributo(c: char) -> Seq<char> {
    if c == '&' {
        "&amp;"@
    } else if c == '<' {
        "&lt;"@
    } else if c == '"' {
        "&quot;"@
    } else if c == '\t' {
        "&#x9;"@
    } else if c == '\n' {
        "&#xA;"@
    } else if c == '\r' {
        "&#xD;"@
    } else {
        seq![c]
    }
}

/// Texto con cada carácter sustituido según `escape_texto`.
pub open spec fn texto_codificado(s: Seq<char>) -> Seq<char>
    decreases s.len(),
{
    if s.len() == 0 {
        Seq::empty()
    } else {
        texto_codificado(s.drop_last()) + escape_texto(s.last())
    }
}

/// Valor de atributo con cada carácter sustituido según `escape_atributo`.
pub open spec fn atributo_codificado(s: Seq<char>) -> Seq<char>
    decreases s.len(),
{
    if s.len() == 0 {
        Seq::empty()
    } else {
        atributo_codificado(s.drop_last()) + escape_atributo(s.last())
    }
}

/// Orden lexicográfico estricto por puntos de código (el de `str::cmp`).
pub open spec fn lex_menor(a: Seq<char>, b: Seq<char>) -> bool
    decreases a.len(),
{
    if a.len() == 0 {
        b.len() > 0
    } else if b.len() == 0 {
        false
    } else if a[0] != b[0] {
        (a[0] as u32) < (b[0] as u32)
    } else {
        lex_menor(a.drop_first(), b.drop_first())
    }
}

/// Inserta `x` después de los pares cuyo nombre no es mayor que el suyo.
pub open spec fn insertar_par(x: (Seq<char>, Seq<char>), t: Seq<(Seq<char>, Seq<char>)>) -> Seq<
    (Seq<char>, Seq<char>),
>
    decreases t.len(),
{
    if t.len() == 0 {
        seq![x]
    } else if lex_menor(x.0, t[0].0) {
        seq![x] + t
    } else {
        seq![t[0]] + insertar_par(x, t.drop_first())
    }
}

/// Ordenamiento estable por nombre (`sort_by` comparando los nombres).
pub open spec fn ordenar_pares(s: Seq<(Seq<char>, Seq<char>)>) -> Seq<(Seq<char>, Seq<char>)>
    decreases s.len(),
{
    if s.len() == 0 {
        s
    } else {
        insertar_par(s.last(), ordenar_pares(s.drop_last()))
    }
}

/// El nombre es una declaración de espacio de nombres.
pub open spec fn es_xmlns(nombre: Seq<char>) -> bool {
    nombre == "xmlns"@ || (nombre.len() >= 6 && nombre.subrange(0, 6) == "xmlns:"@)
}

/// Nombre calificado de un atributo: `URI:nombre` si tiene espacio de nombres.
pub open spec fn nombre_calificado(a: AtributoXml) -> Seq<char> {
    match a.espacio {
        Some(uri) => uri@ + ":"@ + a.nombre@,
        None => a.nombre@,
    }
}

/// Nombre de la declaración de un espacio de nombres: `xmlns` o `xmlns:p`.
pub open spec fn nombre_declaracion(prefijo: Option<String>) -> Seq<char> {
    match prefijo {
        Some(p) => "xmlns:"@ + p@,
        None => "xmlns"@,
    }
}

/// La declaración `(nombre, uri)` ya está en ámbito en `padre`.
pub open spec fn en_ambito(x: (Seq<char>, Seq<char>), padre: Seq<EspacioXml>) -> bool
    decreases padre.len(),
{
    if padre.len() == 0 {
        false
    } else {
        (nombre_declaracion(padre.last().prefijo) == x.0 && padre.last().uri@ == x.1) || en_ambito(
            x,
            padre.drop_last(),
        )
    }
}

/// Declaraciones que el elemento muestra: los espacios en ámbito en él que no
/// lo estaban, con el mismo URI, en su padre (C14N inclusiva).
pub open spec fn espacios_visibles(es: Seq<EspacioXml>, padre: Seq<EspacioXml>) -> Seq<
    (Seq<char>, Seq<char>),
>
    decreases es.len(),
{
    if es.len() == 0 {
        Seq::empty()
    } else {
        let x = (nombre_declaracion(es.last().prefijo), es.last().uri@);
        if en_ambito(x, padre) {
            espacios_visibles(es.drop_last(), padre)
        } else {
            espacios_visibles(es.drop_last(), padre).push(x)
        }
    }
}

/// Declaraciones de espacios de nombres, en el orden del documento.
pub open spec fn declaraciones(attrs: Seq<AtributoXml>) -> Seq<(Seq<char>, Seq<char>)>
    decreases attrs.len(),
{
    if attrs.len() == 0 {
        Seq::empty()
    } else if es_xmlns(attrs.last().nombre@) {
        declaraciones(attrs.drop_last()).push((attrs.last().nombre@, attrs.last().valor@))
    } else {
        declaraciones(attrs.drop_last())
    }
}

/// Atributos ordinarios con su nombre calificado, en el orden del documento.
pub open spec fn ordinarios(attrs: Seq<AtributoXml>) -> Seq<(Seq<char>, Seq<char>)>
    decreases attrs.len(),
{
    if attrs.len() == 0 {
        Seq::empty()
    } else if es_xmlns(attrs.last().nombre@) {
        ordinarios(attrs.drop_last())
    } else {
        ordinarios(attrs.drop_last()).push((nombre_calificado(attrs.last()), attrs.last().valor@))
    }
}

/// Atributos de un elemento en el orden canónico: las declaraciones de
/// espacios de nombres (las visibles `extra` y las que vengan entre los
/// atributos) seguidas de los atributos ordinarios ordenados, y todo
/// ordenado de nuevo por nombre.
pub open spec fn atributos_canonicos(extra: Seq<(Seq<char>, Seq<char>)>, attrs: Seq<AtributoXml>) -> Seq<
    (Seq<char>, Seq<char>),
> {
    ordenar_pares(extra + declaraciones(attrs) + ordenar_pares(ordinarios(attrs)))
}

/// Texto de los atributos: ` nombre="valor"` por cada par.
pub open spec fn texto_atributos(pares: Seq<(Seq<char>, Seq<char>)>) -> Seq<char>
    decreases pares.len(),
{
    if pares.len() == 0 {
        Seq::empty()
    } else {
        texto_atributos(pares.drop_last()) + " "@ + pares.last().0 + "=\""@ + atributo_codificado(
            pares.last().1,
        ) + "\""@
    }
}

/// Etiqueta de apertura de un elemento.
pub open spec fn apertura(n: NodoPlano) -> Seq<char> {
    "<"@ + n.nombre@ + texto_atributos(
        atributos_canonicos(espacios_visibles(n.espacios@, n.espacios_padre@), n.atributos@),
    ) + ">"@
}

/// Lo que un nodo aporta al texto canónico, sin contar su cierre.
pub open spec fn contenido(n: NodoPlano) -> Seq<char> {
    match n.tipo {
        TipoNodo::Elemento => apertura(n),
        TipoNodo::Texto => match n.texto {
            Some(t) => texto_codificado(t@),
            None => Seq::empty(),
        },
        TipoNodo::Otro => Seq::empty(),
    }
}

/// Cierra, del tope hacia abajo, los elementos abiertos de profundidad `>= d`:
/// devuelve las etiquetas de cierre y la pila que queda.
pub open spec fn cerrar(pila: Seq<(usize, String)>, d: int) -> (Seq<char>, Seq<(usize, String)>)
    decreases pila.len(),
{
    if pila.len() > 0 && pila.last().0 >= d {
        let r = cerrar(pila.drop_last(), d);
        ("</"@ + pila.last().1@ + ">"@ + r.0, r.1)
    } else {
        (Seq::empty(), pila)
    }
}

/// Pila de elementos abiertos después de visitar `n`.
pub open spec fn pila_tras(n: NodoPlano, pila: Seq<(usize, String)>) -> Seq<(usize, String)> {
    if n.tipo == TipoNodo::Elemento {
        pila.push((n.profundidad, n.nombre))
    } else {
        pila
    }
}

/// Texto canónico de los nodos desde el índice `i`, con la pila de elementos
/// abiertos `pila`.
pub open spec fn c14n_desde(nodos: Seq<NodoPlano>, i: int, pila: Seq<(usize, String)>) -> Seq<char>
    decreases nodos.len() - i,
{
    if i < 0 || i >= nodos.len() {
        cerrar(pila, 0).0
    } else {
        let c = cerrar(pila, nodos[i].profundidad as int);
        c.0 + contenido(nodos[i]) + c14n_desde(nodos, i + 1, pila_tras(nodos[i], c.1))
    }
}

/// Texto canónico de un recorrido en preorden.
pub open spec fn c14n_nodos(nodos: Seq<NodoPlano>) -> Seq<char> {
    c14n_desde(nodos, 0, Seq::empty())
}

/// Vista de una lista de pares de textos.
pub open spec fn vista_pares(v: Seq<(String, String)>) -> Seq<(Seq<char>, Seq<char>)> {
    v.map_values(|p: (String, String)| (p.0@, p.1@))
}

// ---------------------------------------------------------------------------
// Lemas
// ---------------------------------------------------------------------------

/// `insertar_par` coloca `x` antes del primer par cuyo nombre es mayor.
proof fn lema_insertar_par(x: (Seq<char>, Seq<char>), t: Seq<(Seq<char>, Seq<char>)>, p: int)
    requires
        0 <= p <= t.len(),
        forall|k: int| 0 <= k < p ==> !lex_menor(x.0, #[trigger] t[k].0),
        p < t.len() ==> lex_menor(x.0, t[p].0),
    ensures
        insertar_par(x, t) == t.take(p).push(x) + t.skip(p),
    decreases t.len(),
{
    if t.len() == 0 {
        assert(t.take(p).push(x) + t.skip(p) =~= seq![x]);
    } else if p == 0 {
        assert(t.take(p).push(x) + t.skip(p) =~= seq![x] + t);
    } else {
        let u = t.drop_first();
        assert forall|k: int| 0 <= k < p - 1 implies !lex_menor(x.0, #[trigger] u[k].0) by {
            assert(u[k] == t[k + 1]);
        }
        lema_insertar_par(x, u, p - 1);
        assert(t.take(p).push(x) + t.skip(p) =~= seq![t[0]] + (u.take(p - 1).push(x) + u.skip(
            p - 1,
        )));
    }
}

/// Los pares están ordenados por nombre: ninguno tiene un nombre menor que
/// uno anterior.
pub open spec fn ordenados(s: Seq<(Seq<char>, Seq<char>)>) -> bool {
    forall|i: int, j: int| 0 <= i < j < s.len() ==> !lex_menor(#[trigger] s[j].0, #[trigger] s[i].0)
}

proof fn lema_lex_transitivo(a: Seq<char>, b: Seq<char>, c: Seq<char>)
    requires
        lex_menor(a, b),
        lex_menor(b, c),
    ensures
        lex_menor(a, c),
    decreases a.len(),
{
    if a.len() > 0 && b.len() > 0 && c.len() > 0 && a[0] == b[0] && b[0] == c[0] {
        lema_lex_transitivo(a.drop_first(), b.drop_first(), c.drop_first());
    }
}

proof fn lema_lex_irreflexivo(a: Seq<char>)
    ensures
        !lex_menor(a, a),
    decreases a.len(),
{
    if a.len() > 0 {
        lema_lex_irreflexivo(a.drop_first());
    }
}

proof fn lema_insertar_cota(x: (Seq<char>, Seq<char>), t: Seq<(Seq<char>, Seq<char>)>, z: Seq<char>)
    requires
        !lex_menor(x.0, z),
        forall|k: int| 0 <= k < t.len() ==> !lex_menor(#[trigger] t[k].0, z),
    ensures
        forall|k: int|
            0 <= k < insertar_par(x, t).len() ==> !lex_menor(#[trigger] insertar_par(x, t)[k].0, z),
    decreases t.len(),
{
    if t.len() > 0 && !lex_menor(x.0, t[0].0) {
        let u = t.drop_first();
        lema_insertar_cota(x, u, z);
        let r = insertar_par(x, t);
        assert forall|k: int| 0 <= k < r.len() implies !lex_menor(#[trigger] r[k].0, z) by {
            if k > 0 {
                assert(r[k] == insertar_par(x, u)[k - 1]);
            }
        }
    }
}

proof fn lema_insertar_ordenado(x: (Seq<char>, Seq<char>), t: Seq<(Seq<char>, Seq<char>)>)
    requires
        ordenados(t),
    ensures
        ordenados(insertar_par(x, t)),
        insertar_par(x, t).to_multiset() == t.to_multiset().insert(x),
    decreases t.len(),
{
    broadcast use vstd::multiset::group_multiset_axioms;

    let r = insertar_par(x, t);
    if t.len() == 0 {
        assert(r.to_multiset() =~= Seq::<(Seq<char>, Seq<char>)>::empty().push(x).to_multiset()) by {
            assert(r =~= Seq::<(Seq<char>, Seq<char>)>::empty().push(x));
        }
        vstd::seq::Seq::to_multiset_ensures(Seq::<(Seq<char>, Seq<char>)>::empty());
        assert(t =~= Seq::<(Seq<char>, Seq<char>)>::empty());
    } else if lex_menor(x.0, t[0].0) {
        assert(r == seq![x] + t);
        assert forall|i: int, j: int| 0 <= i < j < r.len() implies !lex_menor(
            #[trigger] r[j].0,
            #[trigger] r[i].0,
        ) by {
            if i == 0 {
                assert(r[0] == x);
                assert(r[j] == t[j - 1]);
                if lex_menor(r[j].0, x.0) {
                    lema_lex_transitivo(r[j].0, x.0, t[0].0);
                    if j - 1 > 0 {
                        assert(!lex_menor(t[j - 1].0, t[0].0));
                    } else {
                        lema_lex_irreflexivo(t[0].0);
                    }
                }
            } else {
                assert(r[i] == t[i - 1] && r[j] == t[j - 1]);
            }
        }
        vstd::seq_lib::lemma_multiset_commutative(seq![x], t);
        vstd::seq::Seq::to_multiset_ensures(Seq::<(Seq<char>, Seq<char>)>::empty());
        assert(seq![x] =~= Seq::<(Seq<char>, Seq<char>)>::empty().push(x));
    } else {
        let u = t.drop_first();
        assert(ordenados(u)) by {
            assert forall|i: int, j: int| 0 <= i < j < u.len() implies !lex_menor(
                #[trigger] u[j].0,
                #[trigger] u[i].0,
            ) by {
                assert(u[i] == t[i + 1] && u[j] == t[j + 1]);
            }
        }
        lema_insertar_ordenado(x, u);
        assert forall|k: int| 0 <= k < u.len() implies !lex_menor(#[trigger] u[k].0, t[0].0) by {
            assert(u[k] == t[k + 1]);
        }
        lema_insertar_cota(x, u, t[0].0);
        let w = insertar_par(x, u);
        assert(r == seq![t[0]] + w);
        assert forall|i: int, j: int| 0 <= i < j < r.len() implies !lex_menor(
            #[trigger] r[j].0,
            #[trigger] r[i].0,
        ) by {
            assert(r[j] == w[j - 1]);
            if i > 0 {
                assert(r[i] == w[i - 1]);
            }
        }
        vstd::seq_lib::lemma_multiset_commutative(seq![t[0]], w);
        vstd::seq_lib::lemma_multiset_commutative(seq![t[0]], u);
        assert(t =~= seq![t[0]] + u);
    }
}

proof fn lema_ordenar(s: Seq<(Seq<char>, Seq<char>)>)
    ensures
        ordenados(ordenar_pares(s)),
        ordenar_pares(s).to_multiset() == s.to_multiset(),
    decreases s.len(),
{
    if s.len() > 0 {
        lema_ordenar(s.drop_last());
        lema_insertar_ordenado(s.last(), ordenar_pares(s.drop_last()));
        vstd::seq::Seq::to_multiset_ensures(s.drop_last());
        assert(s =~= s.drop_last().push(s.last()));
    }
}

/// En la etiqueta de apertura canónica los atributos van ordenados por
/// nombre, y son exactamente las declaraciones de espacios de nombres y los
/// atributos ordinarios del elemento, ni uno más ni uno menos.
pub proof fn ley_atributos_ordenados(extra: Seq<(Seq<char>, Seq<char>)>, attrs: Seq<AtributoXml>)
    ensures
        ordenados(atributos_canonicos(extra, attrs)),
        atributos_canonicos(extra, attrs).to_multiset() == (extra + declaraciones(attrs)
            + ordinarios(attrs)).to_multiset(),
{
    let o = ordinarios(attrs);
    let d = extra + declaraciones(attrs);
    lema_ordenar(o);
    lema_ordenar(d + ordenar_pares(o));
    vstd::seq_lib::lemma_multiset_commutative(d, ordenar_pares(o));
    vstd::seq_lib::lemma_multiset_commutative(d, o);
}

// ---------------------------------------------------------------------------
// Funciones ejecutables
// ---------------------------------------------------------------------------

/// Codifica el texto de un nodo: `&`, `<`, `>` y el retorno de carro.
pub fn encode_text(text: &str) -> (r: String)
    ensures
        r@ == texto_codificado(text@),
{
    let v = caracteres(text);
    let mut r = String::new();
    let mut i: usize = 0;
    while i < v.len()
        invariant
            i <= v.len(),
            r@ == texto_codificado(v@.take(i as int)),
        decreases v.len() - i,
    {
        let c = v[i];
        proof {
            assert(v@.take(i + 1).drop_last() =~= v@.take(i as int));
        }
        if c == '&' {
            r.append("&amp;");
        } else if c == '<' {
            r.append("&lt;");
        } else if c == '>' {
            r.append("&gt;");
        } else if c == '\r' {
            r.append("&#xD;");
        } else {
            empujar(&mut r, c);
        }
        i = i + 1;
    }
    proof {
        assert(v@.take(i as int) =~= v@);
    }
    r
}

/// Codifica el valor de un atributo: `&`, `<`, `"`, tabulador, salto de línea
/// y retorno de carro.
pub fn encode_attr(val: &str) -> (r: String)
    ensures
        r@ == atributo_codificado(val@),
{
    let v = caracteres(val);
    let mut r = String::new();
    let mut i: usize = 0;
    while i < v.len()
        invariant
            i <= v.len(),
            r@ == atributo_codificado(v@.take(i as int)),
        decreases v.len() - i,
    {
        let c = v[i];
        proof {
            assert(v@.take(i + 1).drop_last() =~= v@.take(i as int));
        }
        if c == '&' {
            r.append("&amp;");
        } else if c == '<' {
            r.append("&lt;");
        } else if c == '"' {
            r.append("&quot;");
        } else if c == '\t' {
            r.append("&#x9;");
        } else if c == '\n' {
            r.append("&#xA;");
        } else if c == '\r' {
            r.append("&#xD;");
        } else {
            empujar(&mut r, c);
        }
        i = i + 1;
    }
    proof {
        assert(v@.take(i as int) =~= v@);
    }
    r
}


/// `a` precede estrictamente a `b` en orden lexicográfico.
pub fn menor_lex(a: &Vec<char>, b: &Vec<char>) -> (r: bool)
    ensures
        r == lex_menor(a@, b@),
{
    let mut i: usize = 0;
    proof {
        assert(a@.skip(0) =~= a@);
        assert(b@.skip(0) =~= b@);
    }
    loop
        invariant
            i <= a.len(),
            i <= b.len(),
            lex_menor(a@, b@) == lex_menor(a@.skip(i as int), b@.skip(i as int)),
        decreases a.len() - i,
    {
        if i == a.len() {
            return i < b.len();
        }
        if i == b.len() {
            return false;
        }
        if a[i] != b[i] {
            return (a[i] as u32) < (b[i] as u32);
        }
        proof {
            assert(a@.skip(i as int).drop_first() =~= a@.skip(i + 1));
            assert(b@.skip(i as int).drop_first() =~= b@.skip(i + 1));
        }
        i = i + 1;
    }
}

/// El nombre es `xmlns` o empieza con `xmlns:`.
fn nombre_es_xmlns(n: &Vec<char>) -> (r: bool)
    ensures
        r == es_xmlns(n@),
{
    let x1 = caracteres("xmlns");
    let x2 = caracteres("xmlns:");
    proof {
        reveal_strlit("xmlns");
        reveal_strlit("xmlns:");
    }
    let igual = n.len() == x1.len() && coincide(n, &x1, 0);
    proof {
        if n.len() == x1.len() {
            assert(n@.subrange(0, x1@.len() as int) =~= n@);
        }
    }
    igual || (n.len() >= 6 && coincide(n, &x2, 0))
}

/// Copia de un par de textos.
fn copiar_par(p: &(String, String)) -> (r: (String, String))
    ensures
        r.0@ == p.0@,
        r.1@ == p.1@,
{
    (p.0.clone(), p.1.clone())
}

/// Inserta `x` en `v` después de los pares cuyo nombre no es mayor que el suyo.
fn insertar_ordenado(v: &mut Vec<(String, String)>, x: (String, String))
    ensures
        vista_pares(final(v)@) == insertar_par((x.0@, x.1@), vista_pares(old(v)@)),
{
    let clave = caracteres(x.0.as_str());
    let ghost t = vista_pares(v@);
    let ghost xv = (x.0@, x.1@);
    let mut p: usize = 0;
    while p < v.len()
        invariant
            p <= v.len(),
            t == vista_pares(v@),
            clave@ == xv.0,
            forall|k: int| 0 <= k < p ==> !lex_menor(xv.0, #[trigger] t[k].0),
        ensures
            p <= v.len(),
            t == vista_pares(v@),
            forall|k: int| 0 <= k < p ==> !lex_menor(xv.0, #[trigger] t[k].0),
            p < v.len() ==> lex_menor(xv.0, t[p as int].0),
        decreases v.len() - p,
    {
        let otra = caracteres(v[p].0.as_str());
        proof {
            assert(t[p as int] == (v@[p as int].0@, v@[p as int].1@));
        }
        if menor_lex(&clave, &otra) {
            break;
        }
        p = p + 1;
    }
    proof {
        lema_insertar_par(xv, t, p as int);
    }
    v.insert(p, x);
    proof {
        assert(vista_pares(v@) =~= t.take(p as int).push(xv) + t.skip(p as int));
    }
}

/// Ordenamiento estable de los pares por nombre.
fn ordenar_por_nombre(v: Vec<(String, String)>) -> (r: Vec<(String, String)>)
    ensures
        vista_pares(r@) == ordenar_pares(vista_pares(v@)),
{
    let mut r: Vec<(String, String)> = Vec::new();
    let mut i: usize = 0;
    while i < v.len()
        invariant
            i <= v.len(),
            vista_pares(r@) == ordenar_pares(vista_pares(v@).take(i as int)),
        decreases v.len() - i,
    {
        let x = copiar_par(&v[i]);
        proof {
            let s = vista_pares(v@).take(i + 1);
            assert(s.drop_last() =~= vista_pares(v@).take(i as int));
            assert(s.last() == (x.0@, x.1@));
        }
        insertar_ordenado(&mut r, x);
        i = i + 1;
    }
    proof {
        assert(vista_pares(v@).take(i as int) =~= vista_pares(v@));
    }
    r
}

/// La declaración `(nombre, uri)` está en ámbito en `padre`.
fn declarado_en(nombre: &String, uri: &String, padre: &Vec<EspacioXml>) -> (r: bool)
    ensures
        r == en_ambito((nombre@, uri@), padre@),
{
    let ghost x = (nombre@, uri@);
    let mut i: usize = 0;
    while i < padre.len()
        invariant
            i <= padre.len(),
            x == (nombre@, uri@),
            !en_ambito(x, padre@.take(i as int)),
        decreases padre.len() - i,
    {
        let e = &padre[i];
        let nd = declaracion_de(&e.prefijo);
        proof {
            let t = padre@.take(i + 1);
            assert(t.drop_last() =~= padre@.take(i as int));
            assert(t.last() == padre@[i as int]);
        }
        if mismo_texto(nd.as_str(), nombre.as_str()) && mismo_texto(e.uri.as_str(), uri.as_str()) {
            proof {
                lema_en_ambito_prefijo(x, padre@, i + 1);
            }
            return true;
        }
        i = i + 1;
    }
    proof {
        assert(padre@.take(i as int) =~= padre@);
    }
    false
}

/// Nombre de la declaración de un prefijo: `xmlns` o `xmlns:p`.
fn declaracion_de(prefijo: &Option<String>) -> (r: String)
    ensures
        r@ == nombre_declaracion(*prefijo),
{
    match prefijo {
        Some(p) => {
            let mut q = a_string("xmlns:");
            q.append(p.as_str());
            q
        },
        None => a_string("xmlns"),
    }
}

/// Lo que está en ámbito en un prefijo de `padre` lo está en `padre`.
proof fn lema_en_ambito_prefijo(x: (Seq<char>, Seq<char>), padre: Seq<EspacioXml>, j: int)
    requires
        0 <= j <= padre.len(),
        en_ambito(x, padre.take(j)),
    ensures
        en_ambito(x, padre),
    decreases padre.len(),
{
    if j == padre.len() {
        assert(padre.take(j) =~= padre);
    } else {
        assert(padre.take(j) =~= padre.drop_last().take(j));
        lema_en_ambito_prefijo(x, padre.drop_last(), j);
    }
}

/// Atributos de un elemento en el orden canónico, con el nombre calificado:
/// sus declaraciones visibles de espacios de nombres y sus atributos.
pub fn pares_canonicos(n: &NodoPlano) -> (r: Vec<(String, String)>)
    ensures
        vista_pares(r@) == atributos_canonicos(
            espacios_visibles(n.espacios@, n.espacios_padre@),
            n.atributos@,
        ),
{
    let attrs = &n.atributos;
    let mut decl: Vec<(String, String)> = Vec::new();
    let mut k: usize = 0;
    while k < n.espacios.len()
        invariant
            k <= n.espacios.len(),
            vista_pares(decl@) == espacios_visibles(n.espacios@.take(k as int), n.espacios_padre@),
        decreases n.espacios.len() - k,
    {
        let e = &n.espacios[k];
        proof {
            let s = n.espacios@.take(k + 1);
            assert(s.drop_last() =~= n.espacios@.take(k as int));
            assert(s.last() == n.espacios@[k as int]);
        }
        let nd = declaracion_de(&e.prefijo);
        if !declarado_en(&nd, &e.uri, &n.espacios_padre) {
            let ghost antes = decl@;
            decl.push((nd, e.uri.clone()));
            proof {
                assert(vista_pares(decl@) =~= vista_pares(antes).push((nombre_declaracion(e.prefijo), e.uri@)));
            }
        }
        k = k + 1;
    }
    proof {
        assert(n.espacios@.take(k as int) =~= n.espacios@);
    }
    let ghost extra = vista_pares(decl@);
    let mut ords: Vec<(String, String)> = Vec::new();
    let mut i: usize = 0;
    proof {
        assert(attrs@.take(0) =~= Seq::<AtributoXml>::empty());
        assert(extra + declaraciones(attrs@.take(0)) =~= extra);
    }
    while i < attrs.len()
        invariant
            i <= attrs.len(),
            attrs == &n.atributos,
            vista_pares(decl@) == extra + declaraciones(attrs@.take(i as int)),
            vista_pares(ords@) == ordinarios(attrs@.take(i as int)),
        decreases attrs.len() - i,
    {
        let a = &attrs[i];
        proof {
            let s = attrs@.take(i + 1);
            assert(s.drop_last() =~= attrs@.take(i as int));
            assert(s.last() == attrs@[i as int]);
        }
        let nombre = caracteres(a.nombre.as_str());
        if nombre_es_xmlns(&nombre) {
            let ghost antes = decl@;
            decl.push((a.nombre.clone(), a.valor.clone()));
            proof {
                assert(vista_pares(decl@) =~= vista_pares(antes).push((a.nombre@, a.valor@)));
                assert(vista_pares(decl@) =~= extra + declaraciones(attrs@.take(i as int)).push(
                    (a.nombre@, a.valor@),
                ));
            }
        } else {
            let q = match &a.espacio {
                Some(uri) => {
                    let mut q = uri.clone();
                    q.append(":");
                    q.append(a.nombre.as_str());
                    q
                },
                None => a.nombre.clone(),
            };
            ords.push((q, a.valor.clone()));
            proof {
                assert(vista_pares(ords@) =~= ordinarios(attrs@.take(i as int)).push(
                    (nombre_calificado(*a), a.valor@),
                ));
            }
        }
        i = i + 1;
    }
    proof {
        assert(attrs@.take(i as int) =~= attrs@);
    }
    let ords = ordenar_por_nombre(ords);
    let mut todos = decl;
    let ghost d = todos@;
    proof {
        assert(vista_pares(ords@).take(0) =~= Seq::<(Seq<char>, Seq<char>)>::empty());
        assert(vista_pares(d) + Seq::<(Seq<char>, Seq<char>)>::empty() =~= vista_pares(d));
    }
    let mut j: usize = 0;
    while j < ords.len()
        invariant
            j <= ords.len(),
            vista_pares(todos@) == vista_pares(d) + vista_pares(ords@).take(j as int),
        decreases ords.len() - j,
    {
        let x = copiar_par(&ords[j]);
        let ghost antes = todos@;
        todos.push(x);
        proof {
            assert(vista_pares(todos@) =~= vista_pares(antes).push((x.0@, x.1@)));
            assert(vista_pares(ords@).take(j + 1) =~= vista_pares(ords@).take(j as int).push(
                (x.0@, x.1@),
            ));
        }
        j = j + 1;
    }
    proof {
        assert(vista_pares(ords@).take(j as int) =~= vista_pares(ords@));
    }
    ordenar_por_nombre(todos)
}


/// Escribe en `out` la etiqueta de apertura de un elemento.
fn escribir_apertura(out: &mut String, n: &NodoPlano)
    ensures
        final(out)@ == old(out)@ + apertura(*n),
{
    let pares = pares_canonicos(n);
    let ghost inicio = out@;
    out.append("<");
    out.append(n.nombre.as_str());
    let mut i: usize = 0;
    while i < pares.len()
        invariant
            i <= pares.len(),
            out@ == inicio + "<"@ + n.nombre@ + texto_atributos(vista_pares(pares@).take(i as int)),
        decreases pares.len() - i,
    {
        let ghost antes = out@;
        out.append(" ");
        out.append(pares[i].0.as_str());
        out.append("=\"");
        let v = encode_attr(pares[i].1.as_str());
        out.append(v.as_str());
        out.append("\"");
        proof {
            let s = vista_pares(pares@).take(i + 1);
            assert(s.drop_last() =~= vista_pares(pares@).take(i as int));
            assert(s.last() == (pares@[i as int].0@, pares@[i as int].1@));
            assert(out@ =~= antes + (" "@ + pares@[i as int].0@ + "=\""@ + atributo_codificado(
                pares@[i as int].1@,
            ) + "\""@));
            assert(out@ =~= inicio + "<"@ + n.nombre@ + texto_atributos(s));
        }
        i = i + 1;
    }
    out.append(">");
    proof {
        assert(vista_pares(pares@).take(i as int) =~= vista_pares(pares@));
        assert(out@ =~= old(out)@ + apertura(*n));
    }
}

/// Cierra los elementos abiertos de profundidad `>= d`, del tope hacia abajo.
fn cerrar_hasta(out: &mut String, pila: &mut Vec<(usize, String)>, d: usize)
    ensures
        final(out)@ == old(out)@ + cerrar(old(pila)@, d as int).0,
        final(pila)@ == cerrar(old(pila)@, d as int).1,
{
    loop
        invariant
            out@ + cerrar(pila@, d as int).0 == old(out)@ + cerrar(old(pila)@, d as int).0,
            cerrar(pila@, d as int).1 == cerrar(old(pila)@, d as int).1,
        decreases pila.len(),
    {
        if pila.len() == 0 {
            proof {
                assert(out@ + Seq::<char>::empty() =~= out@);
            }
            return;
        }
        let ultimo = pila.len() - 1;
        if pila[ultimo].0 < d {
            proof {
                assert(out@ + Seq::<char>::empty() =~= out@);
            }
            return;
        }
        let ghost p0 = pila@;
        let ghost o0 = out@;
        let par = pila.pop();
        match par {
            Some(par) => {
                out.append("</");
                out.append(par.1.as_str());
                out.append(">");
                proof {
                    assert(pila@ =~= p0.drop_last());
                    assert(o0 + cerrar(p0, d as int).0 =~= out@ + cerrar(pila@, d as int).0);
                }
            },
            None => {
                return;
            },
        }
    }
}

/// Texto canónico de un recorrido en preorden de nodos.
pub fn canonicalizar_nodos(nodos: &Vec<NodoPlano>) -> (r: String)
    ensures
        r@ == c14n_nodos(nodos@),
{
    let mut out = String::new();
    let mut pila: Vec<(usize, String)> = Vec::new();
    let mut i: usize = 0;
    while i < nodos.len()
        invariant
            i <= nodos.len(),
            out@ + c14n_desde(nodos@, i as int, pila@) == c14n_nodos(nodos@),
        decreases nodos.len() - i,
    {
        let n = &nodos[i];
        let ghost o0 = out@;
        let ghost p0 = pila@;
        cerrar_hasta(&mut out, &mut pila, n.profundidad);
        match n.tipo {
            TipoNodo::Elemento => {
                escribir_apertura(&mut out, n);
                pila.push((n.profundidad, n.nombre.clone()));
            },
            TipoNodo::Texto => {
                match &n.texto {
                    Some(t) => {
                        let e = encode_text(t.as_str());
                        out.append(e.as_str());
                    },
                    None => {},
                }
            },
            TipoNodo::Otro => {},
        }
        proof {
            let c = cerrar(p0, n.profundidad as int);
            assert(pila@ == pila_tras(*n, c.1));
            assert(out@ =~= o0 + c.0 + contenido(*n));
            assert(c14n_desde(nodos@, i as int, p0) == c.0 + contenido(*n) + c14n_desde(
                nodos@,
                i + 1,
                pila@,
            ));
            assert(out@ + c14n_desde(nodos@, i + 1, pila@) =~= o0 + c14n_desde(nodos@, i as int, p0));
        }
        i = i + 1;
    }
    cerrar_hasta(&mut out, &mut pila, 0);
    out
}

/// Une cada nodo leído con sus espacios de nombres.
pub fn juntar_nodos(nodos: Vec<NodoLeido>, espacios: Vec<EspaciosNodo>) -> (r: Vec<NodoPlano>)
    requires
        nodos@.len() == espacios@.len(),
    ensures
        r@ == nodos_planos(nodos@, espacios@),
{
    let ghost n0 = nodos@;
    let ghost e0 = espacios@;
    let mut nodos = nodos;
    let mut espacios = espacios;
    let mut r: Vec<NodoPlano> = Vec::new();
    let mut k: usize = 0;
    let total = nodos.len();
    while nodos.len() > 0
        invariant
            total == n0.len() == e0.len(),
            k + nodos@.len() == total,
            nodos@ == n0.skip(k as int),
            espacios@ == e0.skip(k as int),
            r@ == nodos_planos(n0, e0).take(k as int),
        decreases nodos.len(),
    {
        let n = nodos.remove(0);
        let e = espacios.remove(0);
        proof {
            assert(n == n0[k as int]);
            assert(e == e0[k as int]);
        }
        let p = NodoPlano {
            tipo: n.tipo,
            nombre: n.nombre,
            atributos: n.atributos,
            espacios: e.espacios,
            espacios_padre: e.espacios_padre,
            texto: n.texto,
            profundidad: n.profundidad,
        };
        let ghost antes = r@;
        r.push(p);
        proof {
            assert(nodos@ =~= n0.skip(k + 1));
            assert(espacios@ =~= e0.skip(k + 1));
            assert(r@ =~= nodos_planos(n0, e0).take(k + 1));
        }
        k = k + 1;
    }
    proof {
        assert(nodos_planos(n0, e0).take(k as int) =~= nodos_planos(n0, e0));
    }
    r
}

/// Canonicaliza un documento XML.
pub fn canonicalize(xml_str: &str) -> (r: Result<String, ErrorC14n>)
    ensures
        match r {
            Ok(s) => xml_plano(xml_str@) matches Some(n) && s@ == c14n_nodos(n),
            Err(_) => xml_plano(xml_str@) is None,
        },
{
    let nodos = match analizar_xml(xml_str) {
        Ok(n) => n,
        Err(_) => return Err(ErrorC14n::XmlInvalido),
    };
    let espacios = match espacios_de_xml(xml_str) {
        Some(e) => e,
        None => return Err(ErrorC14n::XmlInvalido),
    };
    Ok(canonicalizar_nodos(&juntar_nodos(nodos, espacios)))
}

/// Canonicaliza un fragmento XML con un único elemento raíz (por ejemplo un
/// `SignedInfo`); se trata igual que un documento.
pub fn canonicalize_fragment(xml_str: &str) -> (r: Result<String, ErrorC14n>)
    ensures
        match r {
            Ok(s) => xml_plano(xml_str@) matches Some(n) && s@ == c14n_nodos(n),
            Err(_) => xml_plano(xml_str@) is None,
        },
{
    canonicalize(xml_str)
}

} // verus!
