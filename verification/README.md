# fiscal_core

Núcleo verificado (con Verus) de un sistema de facturación y gestión para
negocios de la República Dominicana: comprobantes fiscales electrónicos
(e-CF), canonicalización XML y firma, ventas, compras, inventario, caja,
nómina, contabilidad, órdenes de servicio, reportes 606/607 de la DGII y el
asistente.

- `src/`: la biblioteca. Cada función pública lleva su contrato
  (`requires`/`ensures`) sobre modelos matemáticos (montos decimales como
  mantisa y escala, textos como secuencias de caracteres, mapas y
  secuencias), y las leyes del dominio están probadas como funciones `proof`
  (`ley_*`). Las llamadas a bibliotecas externas (rust_decimal, openssl,
  roxmltree, sha2, base64, argon2, jsonwebtoken, rand, chrono, image) pasan por envolturas
  pequeñas cuyo contrato está escrito junto a ellas.
- `tests/`: pruebas de la biblioteca sobre valores concretos.
- `app/`: la capa que habla con Postgres (sqlx), el modelo de lenguaje
  (reqwest), la impresora, el sistema de archivos y el reloj; toma sus
  decisiones de la biblioteca.
