//! Registro de socios, cuotas mensuales y reportes de cobranza del club SemRust.
//!
//! - `deporte`, `categoria`: las actividades del club y las categorías de socio.
//! - `pago`, `recibo`: las cuotas, su monto con o sin bonificación, y sus recibos.
//! - `socio`: un socio y su historial de cuotas, cuya única cuota pendiente es la última.
//! - `cuenta`: identificadores de cuentas.
//! - `club`: el estado del club y sus operaciones, con su política de autorización.
//! - `calendario`, `gestor`: fechas en milisegundos y los reportes de morosos, socios al
//!   día y recaudación mensual.

pub mod calendario;
pub mod categoria;
pub mod club;
pub mod cuenta;
pub mod deporte;
pub mod gestor;
pub mod pago;
pub mod recibo;
pub mod socio;

pub use categoria::Categoria;
pub use club::ClubSemRust;
pub use cuenta::AccountId;
pub use deporte::Deporte;
pub use gestor::GestorDeCobros;
pub use pago::Pago;
pub use recibo::Recibo;
pub use socio::Socio;
