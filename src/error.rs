use vstd::prelude::*;

verus! {

/// Errores posibles del programa.
#[derive(Debug, Clone, Copy, PartialEq, Eq, Structural)]
pub enum CafeteriaError {
    /// No se recibió la ruta al archivo con pedidos.
    ArgumentosInvalidos,
    /// No se pudo convertir una línea del archivo de pedidos a un [Pedido](`crate::pedido::Pedido`).
    PedidoInvalido,
    /// No se pudo crear el archivo de pedidos.
    CreacionArchivo,
    /// No se pudo abrir el archivo de pedidos.
    AperturaArchivo,
    /// No se pudo escribir en el archivo de pedidos.
    EscrituraArchivo,
    /// No se pudo leer una línea del archivo de pedidos.
    LecturaArchivo,
    /// Un lock quedó envenenado porque otro hilo entró en pánico mientras lo tenía.
    LockEnvenenado,
}

} // verus!
