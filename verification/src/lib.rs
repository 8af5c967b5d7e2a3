//! Núcleo verificado de un sistema de facturación electrónica y gestión
//! empresarial: canonicalización XML, armado de la firma del e-CF, reglas de
//! precios, contabilidad, nómina, inventario y órdenes de servicio.
pub mod texto;
pub mod xml_c14n;
pub mod ecfl;
pub mod cripto;
pub mod dinero;
pub mod precios;
pub mod contabilidad;
pub mod limitador;
pub mod servicios;
pub mod nomina;
pub mod inventario;
pub mod ordenes;
pub mod reportes;
pub mod licencia;
pub mod catalogo;
pub mod auth;
pub mod archivos;
pub mod asistente;
pub mod ncf;
pub mod estados;
pub mod certificados;
pub mod configuracion;
