# finledger

Núcleo de domínio de um ERP multi-tenant — estoque, financeiro (contas a
receber e a pagar), fiscal (NF-e/NFC-e e o motor tributário da reforma
EC 132/2023 + LC 214/2025) e cadastro de fornecedores — escrito em Verus:
cada operação pública tem contrato (`requires`/`ensures`) provado pelo
verificador, e as propriedades que atravessam operações estão em funções de
prova públicas (`lema_*`).

## Organização

- `src/` — a biblioteca verificada.
  - `compartilhado/` — dinheiro em centavos, textos, datas e instantes,
    identificadores UUID, documentos (CNPJ, NCM, e-mail, telefone) e paginação.
  - `fiscal/` — CFOP, itens e totais de NF, ciclo de vida da nota, emissão
    (rateio de desconto, enriquecimento tributário dos itens, transmissão à
    SEFAZ, cancelamento, reação a devoluções) e `tributacao/` (alíquotas,
    classes tributárias, fases da transição, perfil fiscal e o motor).
  - `estoque/` — o registro de estoque por produto, disponibilidade para
    venda e as movimentações disparadas por compras e vendas.
  - `financeiro/` — contas a receber e a pagar e o planejamento de
    parcelas, abatimentos, estornos e reembolsos.
  - `fornecedores/` — o cadastro de fornecedores.
- `tests/` — testes de cenário sobre a biblioteca compilada.
- `app/` — a camada de aplicação: repositórios e consultas PostgreSQL
  (`sqlx`), handlers assíncronos de comandos e eventos, DTOs `serde` dos
  comandos e consultas, a forma serializada (com `#[serde(default)]` nos
  campos da reforma) de `ImpostoItem`, `ItemNF` e `TotaisNF`, e os erros com
  `thiserror`. Nenhuma regra de negócio vive ali; ela chama a
  biblioteca e confere as pré-condições antes de cada chamada.

As chamadas a `chrono`, `chrono-tz` e `uuid` que a lógica faz ficam em
funções envoltórias (`#[verifier::external_body]`) cujo contrato resume o que
a documentação dessas crates garante.
