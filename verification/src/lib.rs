//! Regras do controle de saída e retorno de veículos leves, verificadas.
//!
//! Tudo que decide algo mora aqui: normalização de nome e de frota, detecção de
//! cadastro parecido, datas e durações, as validações de abertura, encerramento,
//! fusão e exclusão, a montagem dos filtros e dos relatórios, a política de
//! rotação de backup e as decisões que os comandos tomam sobre o que leram do
//! banco. Quem abre arquivo, banco ou janela é o programa em volta.

pub mod auditoria;
pub mod backup;
pub mod banco;
pub mod cadastro;
pub mod config;
pub mod datahora;
pub mod demo;
pub mod duracao;
pub mod erro;
pub mod identidade;
pub mod lock;
pub mod modelo;
pub mod nome;
pub mod registro;
pub mod regras;
pub mod saidas;
pub mod relatorio;
pub mod semelhanca;
pub mod sessao;
pub mod sonda;
pub mod texto;
pub mod validacao;
