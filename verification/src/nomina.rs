//! Nómina: adelantos de sueldo (hasta el 50 % del salario mensual) y el
//! cálculo de cada corrida (TSS 5.91 %, ISR en cero, descuento de adelantos).
use vstd::prelude::*;
use crate::dinero::{
    lema_mitad_exacta, lema_resta_exacta, lema_signo, lema_valor28_menor, lema_valor28_signo,
    menor, multiplicar, producto_cabe, producto_decimal, resta_decimal, restar, suma_cabe,
    suma_decimal, sumar, valor28, valor_menor, Monto,
};
use crate::precios::cero;
use crate::texto::{caracteres, recortado, recortar};

verus! {

/// Errores de nómina.
#[derive(PartialEq, Eq, Structural, Clone, Copy, Debug)]
pub enum ErrorNomina {
    /// El nombre del empleado es requerido.
    NombreVacio,
    /// El salario debe ser mayor a cero.
    SalarioNoPositivo,
    /// El monto del adelanto debe ser mayor a cero.
    MontoNoPositivo,
    /// El adelanto excede lo disponible.
    ExcedeDisponible,
    /// No hay empleados activos.
    SinEmpleados,
    /// Un monto desborda la representación decimal.
    Desbordamiento,
}

/// Tasa de la TSS: 5.91 %.
pub open spec fn tasa_tss() -> Monto {
    Monto { mantisa: 591, escala: 4 }
}

/// La mitad: tope de adelantos sobre el salario.
pub open spec fn mitad() -> Monto {
    Monto { mantisa: 5, escala: 1 }
}

/// Datos de un empleado nuevo: nombre no vacío y salario positivo.
pub fn validar_empleado(nombre: &str, salario_mensual: Monto) -> (r: Result<(), ErrorNomina>)
    requires
        salario_mensual.valido(),
    ensures
        recortar(nombre@).len() == 0 ==> r == Err::<(), ErrorNomina>(ErrorNomina::NombreVacio),
        recortar(nombre@).len() > 0 && !valor_menor(cero(), salario_mensual) ==> r == Err::<
            (),
            ErrorNomina,
        >(ErrorNomina::SalarioNoPositivo),
        recortar(nombre@).len() > 0 && valor_menor(cero(), salario_mensual) ==> r is Ok,
{
    let t = recortado(nombre);
    if caracteres(t.as_str()).len() == 0 {
        return Err(ErrorNomina::NombreVacio);
    }
    if !menor(Monto::cero(), salario_mensual) {
        return Err(ErrorNomina::SalarioNoPositivo);
    }
    Ok(())
}

/// Disponible para adelanto: la mitad del salario menos lo ya tomado
/// (pendiente o aprobado), nunca menos de cero.
pub open spec fn disponible(salario: Monto, tomado: Monto) -> Option<Monto> {
    match producto_decimal(salario, mitad()) {
        None => None,
        Some(limite) => match resta_decimal(limite, tomado) {
            None => None,
            Some(d) => Some(
                if valor_menor(d, cero()) {
                    cero()
                } else {
                    d
                },
            ),
        },
    }
}

/// Disponible para adelanto de un empleado (cero si no tomó nada).
pub fn disponible_adelanto(salario_mensual: Monto, tomado: Option<Monto>) -> (r: Result<
    Monto,
    ErrorNomina,
>)
    requires
        salario_mensual.valido(),
        tomado matches Some(t) ==> t.valido(),
    ensures
        match r {
            Ok(d) => disponible(
                salario_mensual,
                match tomado {
                    Some(t) => t,
                    None => cero(),
                },
            ) == Some(d) && d.valido(),
            Err(e) => e == ErrorNomina::Desbordamiento && disponible(
                salario_mensual,
                match tomado {
                    Some(t) => t,
                    None => cero(),
                },
            ) is None,
        },
        // Sin redondeo, lo disponible es exactamente la mitad del salario
        // menos lo tomado, o cero si ya se tomó la mitad o más.
        disponible_sin_redondeo(
            salario_mensual,
            match tomado {
                Some(t) => t,
                None => cero(),
            },
        ) ==> (r matches Ok(d) && 2 * valor28(d) == mitad_menos_tomado(
            salario_mensual,
            match tomado {
                Some(t) => t,
                None => cero(),
            },
        )),
{
    let t = match tomado {
        Some(t) => t,
        None => Monto::cero(),
    };
    let limite = match multiplicar(salario_mensual, Monto { mantisa: 5, escala: 1 }) {
        Some(l) => l,
        None => return Err(ErrorNomina::Desbordamiento),
    };
    let d = match restar(limite, t) {
        Some(d) => d,
        None => return Err(ErrorNomina::Desbordamiento),
    };
    proof {
        if disponible_sin_redondeo(salario_mensual, t) {
            lema_mitad_exacta(salario_mensual, limite);
            lema_resta_exacta(limite, t, d);
            lema_signo(d);
            lema_valor28_signo(d);
            crate::dinero::lema_valor28_cero(cero());
        }
    }
    if menor(d, Monto::cero()) {
        Ok(Monto::cero())
    } else {
        Ok(d)
    }
}

/// El doble de lo que queda para adelantos: el salario menos el doble de lo
/// tomado, o cero si eso es negativo (en unidades de 10^-28).
pub open spec fn mitad_menos_tomado(salario: Monto, tomado: Monto) -> int {
    if valor28(salario) - 2 * valor28(tomado) < 0 {
        0
    } else {
        valor28(salario) - 2 * valor28(tomado)
    }
}

/// La mitad del salario y la resta de lo tomado se calculan sin redondeo.
pub open spec fn disponible_sin_redondeo(salario: Monto, tomado: Monto) -> bool {
    &&& producto_cabe(salario, mitad())
    &&& producto_decimal(salario, mitad()) matches Some(l) ==> suma_cabe(l, tomado, true)
}

/// Regla del 50 %: si lo disponible es la mitad del salario menos lo ya
/// tomado (cero como mínimo) y un adelanto se acepta contra eso, lo tomado
/// más el adelanto no pasa de la mitad del salario.
pub proof fn ley_regla_del_50(salario: Monto, tomado: Monto, disponible: Monto, monto: Monto)
    requires
        salario.valido(),
        tomado.valido(),
        disponible.valido(),
        monto.valido(),
        2 * valor28(disponible) == mitad_menos_tomado(salario, tomado),
        valor_menor(cero(), monto),
        !valor_menor(disponible, monto),
    ensures
        2 * (valor28(tomado) + valor28(monto)) <= valor28(salario),
{
    lema_valor28_menor(cero(), monto);
    lema_valor28_menor(disponible, monto);
    crate::dinero::lema_valor28_cero(cero());
}

/// Un adelanto debe ser positivo y no exceder lo disponible.
pub fn validar_adelanto(monto: Monto, disponible: Monto) -> (r: Result<(), ErrorNomina>)
    requires
        monto.valido(),
        disponible.valido(),
    ensures
        !valor_menor(cero(), monto) ==> r == Err::<(), ErrorNomina>(ErrorNomina::MontoNoPositivo),
        valor_menor(cero(), monto) && valor_menor(disponible, monto) ==> r == Err::<(), ErrorNomina>(
            ErrorNomina::ExcedeDisponible,
        ),
        valor_menor(cero(), monto) && !valor_menor(disponible, monto) ==> r is Ok,
{
    if !menor(Monto::cero(), monto) {
        return Err(ErrorNomina::MontoNoPositivo);
    }
    if menor(disponible, monto) {
        return Err(ErrorNomina::ExcedeDisponible);
    }
    Ok(())
}

/// Suma de montos acumulada desde cero en orden.
pub open spec fn suma_montos(s: Seq<Monto>) -> Option<Monto>
    decreases s.len(),
{
    if s.len() == 0 {
        Some(cero())
    } else {
        match suma_montos(s.drop_last()) {
            None => None,
            Some(t) => suma_decimal(t, s.last()),
        }
    }
}

/// Los montos son válidos.
pub open spec fn todos_validos(s: Seq<Monto>) -> bool {
    forall|i: int| 0 <= i < s.len() ==> (#[trigger] s[i]).valido()
}

/// Suma de montos (`Iterator::sum` de decimales); `None` si desborda.
pub fn sumar_montos(v: &Vec<Monto>) -> (r: Option<Monto>)
    requires
        todos_validos(v@),
    ensures
        r == suma_montos(v@),
        r matches Some(t) ==> t.valido(),
{
    let mut t = Monto::cero();
    let mut i: usize = 0;
    while i < v.len()
        invariant
            i <= v.len(),
            todos_validos(v@),
            suma_montos(v@.take(i as int)) == Some(t),
            t.valido(),
        decreases v.len() - i,
    {
        proof {
            assert(v@.take(i + 1).drop_last() =~= v@.take(i as int));
        }
        match sumar(t, v[i]) {
            Some(n) => t = n,
            None => {
                proof {
                    lema_suma_prefijo(v@, i as int + 1);
                }
                return None;
            },
        }
        i = i + 1;
    }
    proof {
        assert(v@.take(i as int) =~= v@);
    }
    Some(t)
}

proof fn lema_suma_prefijo(s: Seq<Monto>, k: int)
    requires
        0 <= k <= s.len(),
        suma_montos(s.take(k)) is None,
    ensures
        suma_montos(s) is None,
    decreases s.len() - k,
{
    if k < s.len() {
        assert(s.take(k + 1).drop_last() =~= s.take(k));
        lema_suma_prefijo(s, k + 1);
    } else {
        assert(s.take(k) =~= s);
    }
}

/// Detalle de nómina de un empleado.
#[derive(Clone, Copy, Debug, PartialEq, Eq, Structural)]
pub struct DetalleNomina {
    pub salario_bruto: Monto,
    pub tss: Monto,
    pub isr: Monto,
    pub adelantos_descuento: Monto,
    pub neto: Monto,
}

/// Detalle de un empleado: TSS = bruto × 5.91 %, ISR = 0, adelantos
/// aprobados sumados y neto = bruto − TSS − ISR − adelantos.
pub open spec fn detalle(bruto: Monto, adelantos: Seq<Monto>) -> Option<DetalleNomina> {
    match (producto_decimal(bruto, tasa_tss()), suma_montos(adelantos)) {
        (Some(tss), Some(desc)) => match resta_decimal(bruto, tss) {
            None => None,
            Some(a) => match resta_decimal(a, cero()) {
                None => None,
                Some(b) => match resta_decimal(b, desc) {
                    None => None,
                    Some(neto) => Some(
                        DetalleNomina {
                            salario_bruto: bruto,
                            tss,
                            isr: cero(),
                            adelantos_descuento: desc,
                            neto,
                        },
                    ),
                },
            },
        },
        _ => None,
    }
}

/// Detalle de nómina de un empleado con sus adelantos aprobados.
pub fn calcular_detalle(salario_bruto: Monto, adelantos: &Vec<Monto>) -> (r: Result<
    DetalleNomina,
    ErrorNomina,
>)
    requires
        salario_bruto.valido(),
        todos_validos(adelantos@),
    ensures
        match r {
            Ok(d) => detalle(salario_bruto, adelantos@) == Some(d) && d.neto.valido(),
            Err(e) => e == ErrorNomina::Desbordamiento && detalle(salario_bruto, adelantos@) is None,
        },
{
    let tss = match multiplicar(salario_bruto, Monto { mantisa: 591, escala: 4 }) {
        Some(t) => t,
        None => return Err(ErrorNomina::Desbordamiento),
    };
    let isr = Monto::cero();
    let desc = match sumar_montos(adelantos) {
        Some(d) => d,
        None => return Err(ErrorNomina::Desbordamiento),
    };
    let a = match restar(salario_bruto, tss) {
        Some(a) => a,
        None => return Err(ErrorNomina::Desbordamiento),
    };
    let b = match restar(a, isr) {
        Some(b) => b,
        None => return Err(ErrorNomina::Desbordamiento),
    };
    let neto = match restar(b, desc) {
        Some(n) => n,
        None => return Err(ErrorNomina::Desbordamiento),
    };
    Ok(DetalleNomina { salario_bruto, tss, isr, adelantos_descuento: desc, neto })
}

/// Totales bruto y neto de una corrida, acumulados desde cero en orden.
pub open spec fn totales_corrida(d: Seq<DetalleNomina>) -> Option<(Monto, Monto)>
    decreases d.len(),
{
    if d.len() == 0 {
        Some((cero(), cero()))
    } else {
        match totales_corrida(d.drop_last()) {
            None => None,
            Some(t) => match (
                suma_decimal(t.0, d.last().salario_bruto),
                suma_decimal(t.1, d.last().neto),
            ) {
                (Some(b), Some(n)) => Some((b, n)),
                _ => None,
            },
        }
    }
}

/// Totales bruto y neto de una corrida; una corrida sin empleados se rechaza.
pub fn totales_nomina(detalles: &Vec<DetalleNomina>) -> (r: Result<(Monto, Monto), ErrorNomina>)
    requires
        forall|i: int|
            0 <= i < detalles@.len() ==> (#[trigger] detalles@[i]).salario_bruto.valido()
                && detalles@[i].neto.valido(),
    ensures
        detalles@.len() == 0 ==> r == Err::<(Monto, Monto), ErrorNomina>(ErrorNomina::SinEmpleados),
        detalles@.len() > 0 ==> match r {
            Ok(t) => totales_corrida(detalles@) == Some(t),
            Err(e) => e == ErrorNomina::Desbordamiento && totales_corrida(detalles@) is None,
        },
{
    if detalles.len() == 0 {
        return Err(ErrorNomina::SinEmpleados);
    }
    let mut b = Monto::cero();
    let mut n = Monto::cero();
    let mut i: usize = 0;
    while i < detalles.len()
        invariant
            i <= detalles.len(),
            forall|j: int|
                0 <= j < detalles@.len() ==> (#[trigger] detalles@[j]).salario_bruto.valido()
                    && detalles@[j].neto.valido(),
            totales_corrida(detalles@.take(i as int)) == Some((b, n)),
            b.valido(),
            n.valido(),
        decreases detalles.len() - i,
    {
        proof {
            assert(detalles@.take(i + 1).drop_last() =~= detalles@.take(i as int));
        }
        let d = detalles[i];
        match (sumar(b, d.salario_bruto), sumar(n, d.neto)) {
            (Some(x), Some(y)) => {
                b = x;
                n = y;
            },
            _ => {
                proof {
                    lema_totales_prefijo(detalles@, i as int + 1);
                }
                return Err(ErrorNomina::Desbordamiento);
            },
        }
        i = i + 1;
    }
    proof {
        assert(detalles@.take(i as int) =~= detalles@);
    }
    Ok((b, n))
}

proof fn lema_totales_prefijo(s: Seq<DetalleNomina>, k: int)
    requires
        0 <= k <= s.len(),
        totales_corrida(s.take(k)) is None,
    ensures
        totales_corrida(s) is None,
    decreases s.len() - k,
{
    if k < s.len() {
        assert(s.take(k + 1).drop_last() =~= s.take(k));
        lema_totales_prefijo(s, k + 1);
    } else {
        assert(s.take(k) =~= s);
    }
}

} // verus!
