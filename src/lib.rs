//! Estación de café con contenedores de recursos que se reponen solos, un conjunto
//! acotado de dispensadores y pedidos que se sirven respetando capacidad y stock.
//!
//! Cada componente compartido se modela como un estado con sus transiciones puras:
//! el predicado de espera y el paso que se da al despertar. Quien los protege con
//! un mutex y una variable de condición solo tiene que llamar a estas funciones.

pub mod constantes;
pub mod error;
pub mod pedido;
pub mod cafe;
pub mod espuma;
pub mod dispensadores;
pub mod cafetera;
pub mod texto;
