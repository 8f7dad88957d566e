pub mod conta_pagar;
pub mod conta_receber;
pub mod eventos;
pub mod planejamento;
pub mod comandos;
